//! Deterministic waveform (RIFF/WAVE) codec for mono 32-bit IEEE-float
//! audio.
//!
//! `encode` lays out the file byte for byte — a 44-byte header followed by
//! the samples, little-endian — and `decode` reads exactly that shape
//! back. Both are specified against the same byte-level model, and the
//! round trip is proved. Samples travel as the bit patterns of 32-bit
//! floats, so nothing here is lossy.

use vstd::prelude::*;
use vstd::arithmetic::div_mod::lemma_fundamental_div_mod;
use vstd::arithmetic::div_mod::lemma_div_denominator;
use vstd::arithmetic::div_mod::lemma_div_is_ordered;
use vstd::arithmetic::div_mod::lemma_div_pos_is_pos;
use vstd::arithmetic::div_mod::lemma_small_mod;
use crate::recording::ValidatedRecording;

verus! {

/// The most samples a single file can carry: the RIFF chunk size field is
/// 32 bits, so `36 + 4 * n` must fit in it.
pub const MAX_WAV_SAMPLES: usize = 1073741812;

/// The highest sample rate whose byte rate (`4 * rate`) still fits the
/// 32-bit header field.
pub const MAX_WAV_RATE: u32 = 1073741823;

/// Serialization failed: the recording does not fit the fixed-width
/// header fields.
#[derive(Clone, Copy, PartialEq, Eq, Structural, Debug)]
pub struct EncodeError;

/// The four little-endian bytes of a 32-bit value.
pub open spec fn spec_le32(v: u32) -> Seq<u8> {
    seq![
        (v % 0x100) as u8,
        ((v / 0x100) % 0x100) as u8,
        ((v / 0x10000) % 0x100) as u8,
        ((v / 0x1000000) % 0x100) as u8,
    ]
}

/// The value four little-endian bytes spell.
pub open spec fn spec_word(b0: u8, b1: u8, b2: u8, b3: u8) -> int {
    b0 as int + 0x100 * (b1 as int) + 0x10000 * (b2 as int) + 0x1000000 * (b3 as int)
}

/// The 32-bit value found at offset `i` of a byte sequence.
pub open spec fn spec_rd32(b: Seq<u8>, i: int) -> int {
    spec_word(b[i], b[i + 1], b[i + 2], b[i + 3])
}

/// Reading four little-endian bytes gives back the value they were made
/// from.
pub proof fn lemma_word_le32(v: u32)
    ensures
        spec_word(spec_le32(v)[0], spec_le32(v)[1], spec_le32(v)[2], spec_le32(v)[3]) == v,
{
    let x = v as int;
    lemma_fundamental_div_mod(x, 0x100);
    lemma_fundamental_div_mod(x / 0x100, 0x100);
    lemma_fundamental_div_mod(x / 0x10000, 0x100);
    lemma_div_denominator(x, 0x100, 0x100);
    lemma_div_denominator(x, 0x10000, 0x100);
    lemma_div_pos_is_pos(x, 0x100);
    lemma_div_pos_is_pos(x, 0x10000);
    lemma_div_pos_is_pos(x, 0x1000000);
    lemma_div_is_ordered(x, 0xFFFFFFFF, 0x1000000);
    lemma_small_mod((x / 0x1000000) as nat, 0x100);
}

/// The data chunk: every sample in order, each as four little-endian
/// bytes.
pub open spec fn spec_sample_data(samples: Seq<u32>) -> Seq<u8>
    decreases samples.len(),
{
    if samples.len() == 0 {
        Seq::empty()
    } else {
        spec_sample_data(samples.drop_last()) + spec_le32(samples.last())
    }
}

pub proof fn lemma_sample_data_len(samples: Seq<u32>)
    ensures
        spec_sample_data(samples).len() == 4 * samples.len(),
    decreases samples.len(),
{
    if samples.len() > 0 {
        lemma_sample_data_len(samples.drop_last());
    }
}

/// Sample `i` sits at bytes `4 * i .. 4 * i + 4` of the data chunk.
pub proof fn lemma_sample_data_index(samples: Seq<u32>, i: int)
    requires
        0 <= i < samples.len(),
    ensures
        spec_sample_data(samples).subrange(4 * i, 4 * i + 4) == spec_le32(samples[i]),
    decreases samples.len(),
{
    lemma_sample_data_len(samples.drop_last());
    if i == samples.len() - 1 {
        assert(spec_sample_data(samples).subrange(4 * i, 4 * i + 4)
            =~= spec_le32(samples[i]));
    } else {
        lemma_sample_data_index(samples.drop_last(), i);
        lemma_sample_data_len(samples);
        assert(spec_sample_data(samples).subrange(4 * i, 4 * i + 4)
            =~= spec_sample_data(samples.drop_last()).subrange(4 * i, 4 * i + 4));
    }
}

/// The fixed 44-byte header for `n` mono IEEE-float samples at `rate`
/// samples per second: RIFF size, "WAVE", a 16-byte fmt chunk (format 3,
/// one channel, 32 bits), and the data chunk size.
pub open spec fn spec_wav_header(n: int, rate: u32) -> Seq<u8> {
    seq![0x52u8, 0x49u8, 0x46u8, 0x46u8]
        + spec_le32(((36 + 4 * n) as u32))
        + seq![
            0x57u8, 0x41u8, 0x56u8, 0x45u8,  // "WAVE"
            0x66u8, 0x6du8, 0x74u8, 0x20u8,  // "fmt "
            0x10u8, 0x00u8, 0x00u8, 0x00u8,  // fmt chunk length 16
            0x03u8, 0x00u8,                  // IEEE float
            0x01u8, 0x00u8,                  // one channel
        ]
        + spec_le32(rate)
        + spec_le32(((4 * rate) as u32))
        + seq![
            0x04u8, 0x00u8,                  // block align
            0x20u8, 0x00u8,                  // 32 bits per sample
            0x64u8, 0x61u8, 0x74u8, 0x61u8,  // "data"
        ]
        + spec_le32(((4 * n) as u32))
}

/// The whole file: header, then data.
pub open spec fn spec_wav_bytes(samples: Seq<u32>, rate: u32) -> Seq<u8> {
    spec_wav_header(samples.len() as int, rate) + spec_sample_data(samples)
}

/// What it means for a byte sequence to be one of these files: the exact
/// shape `encode` produces, field by field.
pub open spec fn spec_is_wav(b: Seq<u8>) -> bool {
    &&& b.len() >= 44
    &&& (b.len() - 44) % 4 == 0
    &&& b[0] == 0x52u8 && b[1] == 0x49u8 && b[2] == 0x46u8 && b[3] == 0x46u8
    &&& spec_rd32(b, 4) == b.len() - 8
    &&& b[8] == 0x57u8 && b[9] == 0x41u8 && b[10] == 0x56u8 && b[11] == 0x45u8
    &&& b[12] == 0x66u8 && b[13] == 0x6du8 && b[14] == 0x74u8 && b[15] == 0x20u8
    &&& spec_rd32(b, 16) == 16
    &&& b[20] == 0x03u8 && b[21] == 0x00u8
    &&& b[22] == 0x01u8 && b[23] == 0x00u8
    &&& spec_rd32(b, 28) == 4 * spec_rd32(b, 24)
    &&& b[32] == 0x04u8 && b[33] == 0x00u8 && b[34] == 0x20u8 && b[35] == 0x00u8
    &&& b[36] == 0x64u8 && b[37] == 0x61u8 && b[38] == 0x74u8 && b[39] == 0x61u8
    &&& spec_rd32(b, 40) == b.len() - 44
}

/// The sample rate a file declares.
pub open spec fn spec_wav_rate(b: Seq<u8>) -> int {
    spec_rd32(b, 24)
}

/// How many samples a file carries.
pub open spec fn spec_wav_sample_count(b: Seq<u8>) -> int {
    (b.len() - 44) / 4
}

/// The samples a file carries, read back out of the data chunk.
pub open spec fn spec_wav_samples(b: Seq<u8>) -> Seq<u32> {
    Seq::new(spec_wav_sample_count(b) as nat, |i: int| spec_rd32(b, 44 + 4 * i) as u32)
}

fn push_le32(out: &mut Vec<u8>, v: u32)
    ensures
        final(out)@ == old(out)@ + spec_le32(v),
{
    out.push((v % 0x100) as u8);
    out.push(((v / 0x100) % 0x100) as u8);
    out.push(((v / 0x10000) % 0x100) as u8);
    out.push(((v / 0x1000000) % 0x100) as u8);
    proof {
        assert(out@ =~= old(out)@ + spec_le32(v));
    }
}

fn rd32_at(b: &Vec<u8>, i: usize) -> (r: u32)
    requires
        i + 4 <= b@.len(),
    ensures
        r as int == spec_rd32(b@, i as int),
{
    let end = b.len();
    assert(i + 4 <= end);
    let b0 = b[i] as u32;
    let b1 = b[i + 1] as u32;
    let b2 = b[i + 2] as u32;
    let b3 = b[i + 3] as u32;
    b0 + 0x100 * b1 + 0x10000 * b2 + 0x1000000 * b3
}

/// Serializes a validated recording to the bytes of a mono 32-bit
/// IEEE-float waveform file at the recording's rate — exactly
/// `spec_wav_bytes`, finalized header included. Fails only when the
/// recording cannot fit the 32-bit header fields.
pub fn encode(rec: &ValidatedRecording) -> (r: Result<Vec<u8>, EncodeError>)
    requires
        rec.wf(),
    ensures
        r is Ok <==> (rec.samples_spec().len() <= MAX_WAV_SAMPLES
            && rec.rate_spec() <= MAX_WAV_RATE),
        r matches Ok(bytes) ==> bytes@ == spec_wav_bytes(rec.samples_spec(), rec.rate_spec()),
{
    let samples: &Vec<u32> = rec.samples();
    let rate: u32 = rec.sample_rate();
    let n: usize = samples.len();
    if n > MAX_WAV_SAMPLES || rate > MAX_WAV_RATE {
        return Err(EncodeError);
    }
    let data_len: u32 = (n as u32) * 4;
    let riff_len: u32 = 36 + data_len;
    let byte_rate: u32 = rate * 4;

    let mut out: Vec<u8> = Vec::new();
    out.push(0x52);
    out.push(0x49);
    out.push(0x46);
    out.push(0x46);
    push_le32(&mut out, riff_len);
    out.push(0x57);
    out.push(0x41);
    out.push(0x56);
    out.push(0x45);
    out.push(0x66);
    out.push(0x6d);
    out.push(0x74);
    out.push(0x20);
    out.push(0x10);
    out.push(0x00);
    out.push(0x00);
    out.push(0x00);
    out.push(0x03);
    out.push(0x00);
    out.push(0x01);
    out.push(0x00);
    push_le32(&mut out, rate);
    push_le32(&mut out, byte_rate);
    out.push(0x04);
    out.push(0x00);
    out.push(0x20);
    out.push(0x00);
    out.push(0x64);
    out.push(0x61);
    out.push(0x74);
    out.push(0x61);
    push_le32(&mut out, data_len);
    proof {
        assert(out@ =~= spec_wav_header(n as int, rate));
    }

    let mut i: usize = 0;
    while i < n
        invariant
            i <= n,
            n == samples@.len(),
            out@ == spec_wav_header(n as int, rate) + spec_sample_data(samples@.take(i as int)),
        decreases n - i,
    {
        push_le32(&mut out, samples[i]);
        proof {
            let s = samples@;
            assert(s.take(i as int + 1).drop_last() =~= s.take(i as int));
            assert(s.take(i as int + 1).last() == s[i as int]);
            assert(out@ =~= spec_wav_header(n as int, rate)
                + spec_sample_data(s.take(i as int + 1)));
        }
        i = i + 1;
    }
    proof {
        assert(samples@.take(n as int) =~= samples@);
    }
    Ok(out)
}

/// Reads a file of exactly the shape `encode` writes: returns the
/// samples (as float bit patterns) and the declared rate, or `None` for
/// any byte sequence that is not such a file.
pub fn decode(bytes: &Vec<u8>) -> (r: Option<(Vec<u32>, u32)>)
    ensures
        r is Some <==> spec_is_wav(bytes@),
        r matches Some(p) ==> {
            &&& p.0@ == spec_wav_samples(bytes@)
            &&& p.1 as int == spec_wav_rate(bytes@)
        },
{
    let len = bytes.len();
    if len < 44 {
        return None;
    }
    if (len - 44) % 4 != 0 {
        return None;
    }
    if !(bytes[0] == 0x52 && bytes[1] == 0x49 && bytes[2] == 0x46 && bytes[3] == 0x46) {
        return None;
    }
    let riff_len = rd32_at(bytes, 4);
    if riff_len as u64 != (len - 8) as u64 {
        return None;
    }
    if !(bytes[8] == 0x57 && bytes[9] == 0x41 && bytes[10] == 0x56 && bytes[11] == 0x45) {
        return None;
    }
    if !(bytes[12] == 0x66 && bytes[13] == 0x6d && bytes[14] == 0x74 && bytes[15] == 0x20) {
        return None;
    }
    let fmt_len = rd32_at(bytes, 16);
    if fmt_len != 16 {
        return None;
    }
    if !(bytes[20] == 0x03 && bytes[21] == 0x00 && bytes[22] == 0x01 && bytes[23] == 0x00) {
        return None;
    }
    let rate = rd32_at(bytes, 24);
    let byte_rate = rd32_at(bytes, 28);
    if byte_rate as u64 != 4 * (rate as u64) {
        return None;
    }
    if !(bytes[32] == 0x04 && bytes[33] == 0x00 && bytes[34] == 0x20 && bytes[35] == 0x00) {
        return None;
    }
    if !(bytes[36] == 0x64 && bytes[37] == 0x61 && bytes[38] == 0x74 && bytes[39] == 0x61) {
        return None;
    }
    let data_len = rd32_at(bytes, 40);
    if data_len as u64 != (len - 44) as u64 {
        return None;
    }
    assert(spec_is_wav(bytes@));

    let n: usize = (len - 44) / 4;
    proof {
        lemma_fundamental_div_mod(len as int - 44, 4);
    }
    let mut out: Vec<u32> = Vec::new();
    let mut i: usize = 0;
    while i < n
        invariant
            i <= n,
            n == spec_wav_sample_count(bytes@),
            len == bytes@.len(),
            bytes@.len() == 44 + 4 * n,
            out@ == spec_wav_samples(bytes@).take(i as int),
        decreases n - i,
    {
        let v = rd32_at(bytes, 44 + 4 * i);
        out.push(v);
        proof {
            assert(spec_wav_samples(bytes@)[i as int] == v);
            assert(spec_wav_samples(bytes@).take(i as int + 1)
                =~= spec_wav_samples(bytes@).take(i as int).push(v));
        }
        i = i + 1;
    }
    proof {
        assert(spec_wav_samples(bytes@).take(n as int) =~= spec_wav_samples(bytes@));
    }
    Some((out, rate))
}

/// Round-trip fidelity: a file encoded from `samples` at `rate` is a
/// well-formed waveform file, and reading it back gives exactly the same
/// sample count, the same samples and the same rate.
pub proof fn lemma_wav_round_trip(samples: Seq<u32>, rate: u32)
    requires
        samples.len() <= MAX_WAV_SAMPLES,
        rate <= MAX_WAV_RATE,
    ensures
        spec_is_wav(spec_wav_bytes(samples, rate)),
        spec_wav_rate(spec_wav_bytes(samples, rate)) == rate,
        spec_wav_sample_count(spec_wav_bytes(samples, rate)) == samples.len(),
        spec_wav_samples(spec_wav_bytes(samples, rate)) == samples,
{
    let b = spec_wav_bytes(samples, rate);
    let n = samples.len() as int;
    let h = spec_wav_header(n, rate);
    lemma_sample_data_len(samples);
    assert(h.len() == 44);
    assert(b.len() == 44 + 4 * n);

    let riff = ((36 + 4 * n) as u32);
    let brate = ((4 * rate) as u32);
    let dlen = ((4 * n) as u32);
    lemma_word_le32(riff);
    lemma_word_le32(rate);
    lemma_word_le32(brate);
    lemma_word_le32(dlen);
    assert(b[4] == spec_le32(riff)[0] && b[5] == spec_le32(riff)[1]
        && b[6] == spec_le32(riff)[2] && b[7] == spec_le32(riff)[3]);
    assert(spec_rd32(b, 4) == riff == b.len() - 8);
    assert(b[16] == 0x10u8 && b[17] == 0x00u8 && b[18] == 0x00u8 && b[19] == 0x00u8);
    assert(spec_rd32(b, 16) == 16);
    assert(b[24] == spec_le32(rate)[0] && b[25] == spec_le32(rate)[1]
        && b[26] == spec_le32(rate)[2] && b[27] == spec_le32(rate)[3]);
    assert(spec_rd32(b, 24) == rate);
    assert(b[28] == spec_le32(brate)[0] && b[29] == spec_le32(brate)[1]
        && b[30] == spec_le32(brate)[2] && b[31] == spec_le32(brate)[3]);
    assert(spec_rd32(b, 28) == 4 * spec_rd32(b, 24));
    assert(b[40] == spec_le32(dlen)[0] && b[41] == spec_le32(dlen)[1]
        && b[42] == spec_le32(dlen)[2] && b[43] == spec_le32(dlen)[3]);
    assert(spec_rd32(b, 40) == b.len() - 44);
    assert(spec_is_wav(b));

    assert forall|i: int| 0 <= i < n implies spec_wav_samples(b)[i] == samples[i] by {
        lemma_sample_data_index(samples, i);
        let data = spec_sample_data(samples);
        assert(data.subrange(4 * i, 4 * i + 4)[0] == data[4 * i]);
        assert(data.subrange(4 * i, 4 * i + 4)[1] == data[4 * i + 1]);
        assert(data.subrange(4 * i, 4 * i + 4)[2] == data[4 * i + 2]);
        assert(data.subrange(4 * i, 4 * i + 4)[3] == data[4 * i + 3]);
        assert(b[44 + 4 * i] == data[4 * i]);
        assert(b[44 + 4 * i + 1] == data[4 * i + 1]);
        assert(b[44 + 4 * i + 2] == data[4 * i + 2]);
        assert(b[44 + 4 * i + 3] == data[4 * i + 3]);
        lemma_word_le32(samples[i]);
        assert(spec_rd32(b, 44 + 4 * i) == samples[i]);
    }
    assert(spec_wav_samples(b) =~= samples);
}

} // verus!
