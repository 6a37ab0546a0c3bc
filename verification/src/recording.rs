//! The capture buffer and the recorder state machine.
//!
//! Samples are mono 32-bit IEEE-754 values carried as their bit patterns
//! (`u32`), so the logic here is exact; the surrounding program converts
//! with `f32::to_bits` / `f32::from_bits` at the device boundary.

use vstd::prelude::*;

verus! {

/// The sample formats a capture device may negotiate. Only `Float32`
/// (32-bit IEEE-754) is supported by this recorder.
#[derive(Clone, Copy, PartialEq, Eq, Structural, Debug)]
pub enum SampleFormat {
    Float32,
    Int16,
    Uint16,
    Other,
}

/// What the device reported when it was opened: the negotiated rate,
/// channel count and sample format.
#[derive(Clone, Copy, PartialEq, Eq, Structural, Debug)]
pub struct DeviceConfig {
    pub sample_rate: u32,
    pub channels: u16,
    pub format: SampleFormat,
}

/// Everything that can go wrong inside the recorder state machine.
#[derive(Clone, Copy, PartialEq, Eq, Structural, Debug)]
pub enum RecorderError {
    DeviceUnavailable,
    UnsupportedFormat,
    AlreadyRecording,
    RecordingTooShort,
}

#[derive(Clone, Copy, PartialEq, Eq, Structural, Debug)]
pub enum RecorderState {
    Idle,
    Recording,
}

/// The 0.1-second floor on a recording: the least number of samples a
/// drain must produce, `ceil(rate / 10)`.
pub open spec fn spec_min_samples(rate: u32) -> int {
    (rate + 9) / 10
}

/// Executable form of the minimum-sample floor.
pub fn min_samples(rate: u32) -> (r: u32)
    ensures
        r == spec_min_samples(rate),
{
    if rate % 10 == 0 {
        rate / 10
    } else {
        rate / 10 + 1
    }
}

/// `spec_min_samples` really is the ceiling of `rate / 10`: it is the
/// least count whose duration at `rate` samples per second reaches 0.1 s.
pub proof fn lemma_min_samples_is_ceil(rate: u32)
    ensures
        10 * spec_min_samples(rate) >= rate,
        spec_min_samples(rate) > 0 ==> 10 * (spec_min_samples(rate) - 1) < rate,
        rate > 0 ==> spec_min_samples(rate) > 0,
{
}

/// What `append` leaves in the buffer: the block lands at the end only
/// while the recording flag is set; otherwise the call is a no-op.
pub open spec fn spec_append(recording: bool, samples: Seq<u32>, block: Seq<u32>) -> Seq<u32> {
    if recording {
        samples + block
    } else {
        samples
    }
}

/// What `drain` hands out and what it leaves behind: everything, and
/// nothing.
pub open spec fn spec_drain(samples: Seq<u32>) -> (Seq<u32>, Seq<u32>) {
    (samples, Seq::<u32>::empty())
}

/// A drain immediately followed by another drain (with no `append`
/// between them) returns the empty sequence: no sample is duplicated.
pub proof fn lemma_drain_twice(samples: Seq<u32>)
    ensures
        spec_drain(spec_drain(samples).1).0 == Seq::<u32>::empty(),
{
}

/// Cross-cycle isolation: once the recording flag is down an `append` is
/// a no-op, so a block offered after a stop (which drains the buffer and
/// clears the flag) can never surface in the next cycle's drain.
pub proof fn lemma_cross_cycle_isolation(samples: Seq<u32>, block: Seq<u32>)
    ensures
        spec_append(false, samples, block) == samples,
        spec_append(false, spec_drain(samples).1, block) == Seq::<u32>::empty(),
{
}

/// The sample store shared between the capture callback (writer) and the
/// control thread (reader), together with the recording flag the callback
/// observes before every write. The surrounding program keeps the whole
/// recorder behind one lock, which is the exclusion mechanism both sides
/// use.
pub struct CaptureBuffer {
    pub samples: Vec<u32>,
    pub recording: bool,
}

impl CaptureBuffer {
    /// An empty buffer with the flag down.
    pub fn new() -> (r: CaptureBuffer)
        ensures
            r.samples@ == Seq::<u32>::empty(),
            !r.recording,
    {
        CaptureBuffer { samples: Vec::new(), recording: false }
    }

    /// Callback-side write: appends the whole block while the flag is up,
    /// and does nothing at all otherwise — never a partial write.
    pub fn append(&mut self, block: &Vec<u32>)
        ensures
            final(self).recording == old(self).recording,
            final(self).samples@ == spec_append(
                old(self).recording,
                old(self).samples@,
                block@,
            ),
    {
        if self.recording {
            let ghost pre = self.samples@;
            let mut i: usize = 0;
            while i < block.len()
                invariant
                    i <= block@.len(),
                    self.samples@ == pre + block@.take(i as int),
                    self.recording == old(self).recording,
                decreases block@.len() - i,
            {
                self.samples.push(block[i]);
                proof {
                    assert(block@.take(i as int).push(block@[i as int])
                        =~= block@.take(i as int + 1));
                }
                i = i + 1;
            }
            proof {
                assert(block@.take(block@.len() as int) =~= block@);
            }
        }
    }

    /// Control-side read: takes every buffered sample and leaves the
    /// buffer empty, in one exclusive step, so nothing is lost or
    /// duplicated between calls.
    pub fn drain(&mut self) -> (r: Vec<u32>)
        ensures
            r@ == spec_drain(old(self).samples@).0,
            final(self).samples@ == spec_drain(old(self).samples@).1,
            final(self).recording == old(self).recording,
    {
        let mut taken: Vec<u32> = Vec::new();
        std::mem::swap(&mut taken, &mut self.samples);
        taken
    }

    /// Control-side flag flip; the buffered samples are untouched.
    pub fn set_recording(&mut self, on: bool)
        ensures
            final(self).recording == on,
            final(self).samples@ == old(self).samples@,
    {
        self.recording = on;
    }
}

/// The outcome of `start_recording`, as a function of the state the
/// machine was in and of what the device probe found.
pub open spec fn spec_start_result(
    state: RecorderState,
    probe: Option<DeviceConfig>,
) -> Result<(), RecorderError> {
    if state is Recording {
        Err(RecorderError::AlreadyRecording)
    } else {
        match probe {
            Option::None => Err(RecorderError::DeviceUnavailable),
            Option::Some(c) => if c.format is Float32 {
                Ok(())
            } else {
                Err(RecorderError::UnsupportedFormat)
            },
        }
    }
}

/// The state `start_recording` leaves the machine in.
pub open spec fn spec_start_state(
    state: RecorderState,
    probe: Option<DeviceConfig>,
) -> RecorderState {
    if spec_start_result(state, probe) is Ok {
        RecorderState::Recording
    } else {
        state
    }
}

/// The sample rate after `start_recording`: the negotiated one on
/// success, the old one on any failure.
pub open spec fn spec_start_rate(
    state: RecorderState,
    rate: u32,
    probe: Option<DeviceConfig>,
) -> u32 {
    match probe {
        Option::Some(c) => if spec_start_result(state, probe) is Ok {
            c.sample_rate
        } else {
            rate
        },
        Option::None => rate,
    }
}

/// A second `start_recording` without an intervening stop always answers
/// `AlreadyRecording` and moves nothing: not the state, not the rate —
/// and `start_recording`'s own contract keeps the buffer untouched on
/// every path.
pub proof fn lemma_start_twice(
    state: RecorderState,
    rate: u32,
    p1: Option<DeviceConfig>,
    p2: Option<DeviceConfig>,
)
    requires
        spec_start_result(state, p1) is Ok,
    ensures
        spec_start_result(spec_start_state(state, p1), p2)
            == Err::<(), RecorderError>(RecorderError::AlreadyRecording),
        spec_start_state(spec_start_state(state, p1), p2) == spec_start_state(state, p1),
        spec_start_rate(spec_start_state(state, p1), spec_start_rate(state, rate, p1), p2)
            == spec_start_rate(state, rate, p1),
{
}

/// A drain long enough to validate: it meets the 0.1-second floor and is
/// not empty.
pub open spec fn spec_long_enough(samples: Seq<u32>, rate: u32) -> bool {
    &&& samples.len() >= spec_min_samples(rate)
    &&& samples.len() >= 1
}

/// A non-empty run of samples that passed the minimum-duration check,
/// with the rate it was captured at. Built only by that check, and
/// immutable afterwards.
#[derive(Debug)]
pub struct ValidatedRecording {
    samples: Vec<u32>,
    sample_rate: u32,
}

impl ValidatedRecording {
    /// The validated samples (bit patterns of 32-bit floats).
    pub closed spec fn samples_spec(self) -> Seq<u32> {
        self.samples@
    }

    /// The rate the samples were captured at.
    pub closed spec fn rate_spec(self) -> u32 {
        self.sample_rate
    }

    /// The invariant every value of this type carries.
    pub open spec fn wf(self) -> bool {
        spec_long_enough(self.samples_spec(), self.rate_spec())
    }

    /// The minimum-duration check itself: the only way to build a
    /// `ValidatedRecording`.
    pub fn new(samples: Vec<u32>, sample_rate: u32) -> (r: Result<
        ValidatedRecording,
        RecorderError,
    >)
        ensures
            r is Ok <==> spec_long_enough(samples@, sample_rate),
            r matches Ok(v) ==> {
                &&& v.wf()
                &&& v.samples_spec() == samples@
                &&& v.rate_spec() == sample_rate
            },
            r matches Err(e) ==> e == RecorderError::RecordingTooShort,
    {
        let floor = min_samples(sample_rate);
        if samples.len() >= floor as usize && samples.len() >= 1 {
            Ok(ValidatedRecording { samples, sample_rate })
        } else {
            Err(RecorderError::RecordingTooShort)
        }
    }

    /// Read access to the samples.
    pub fn samples(&self) -> (r: &Vec<u32>)
        ensures
            r@ == self.samples_spec(),
    {
        &self.samples
    }

    /// The number of validated samples.
    pub fn len(&self) -> (r: usize)
        ensures
            r == self.samples_spec().len(),
    {
        self.samples.len()
    }

    /// The negotiated sample rate.
    pub fn sample_rate(&self) -> (r: u32)
        ensures
            r == self.rate_spec(),
    {
        self.sample_rate
    }
}

/// The recorder state machine: `Idle` to `Recording` on a successful
/// start, back to `Idle` on stop. It owns the capture buffer and the
/// negotiated sample rate; the capture stream handle itself is owned by
/// the surrounding program, which opens the device and reports what it
/// found.
pub struct AudioRecorder {
    pub state: RecorderState,
    pub buffer: CaptureBuffer,
    pub sample_rate: u32,
}

impl AudioRecorder {
    /// The machine is in `Recording` exactly while the shared flag the
    /// capture callback observes is up.
    pub open spec fn wf(self) -> bool {
        (self.state is Recording) == self.buffer.recording
    }

    /// A fresh, idle recorder with an empty buffer and the conventional
    /// default rate (overwritten on every successful start).
    pub fn new() -> (r: AudioRecorder)
        ensures
            r.wf(),
            r.state is Idle,
            !r.buffer.recording,
            r.buffer.samples@ == Seq::<u32>::empty(),
            r.sample_rate == 44100,
    {
        AudioRecorder {
            state: RecorderState::Idle,
            buffer: CaptureBuffer::new(),
            sample_rate: 44100,
        }
    }

    /// True while a recording cycle is open.
    pub fn is_recording(&self) -> (r: bool)
        ensures
            r == (self.state is Recording),
    {
        matches!(self.state, RecorderState::Recording)
    }

    /// Valid only from `Idle`: accepts the device probe's findings, keeps
    /// the negotiated rate, raises the flag and moves to `Recording`.
    /// From `Recording` it refuses with `AlreadyRecording` and changes
    /// nothing; a missing device or a non-`Float32` format is refused and
    /// the machine stays `Idle`. The buffer is untouched on every path.
    pub fn start_recording(&mut self, probe: Option<DeviceConfig>) -> (r: Result<
        (),
        RecorderError,
    >)
        requires
            old(self).wf(),
        ensures
            final(self).wf(),
            r == spec_start_result(old(self).state, probe),
            final(self).state == spec_start_state(old(self).state, probe),
            final(self).sample_rate == spec_start_rate(old(self).state, old(self).sample_rate, probe),
            final(self).buffer.samples@ == old(self).buffer.samples@,
            final(self).buffer.recording == (final(self).state is Recording),
    {
        if matches!(self.state, RecorderState::Recording) {
            return Err(RecorderError::AlreadyRecording);
        }
        match probe {
            None => Err(RecorderError::DeviceUnavailable),
            Some(c) => {
                if matches!(c.format, SampleFormat::Float32) {
                    self.sample_rate = c.sample_rate;
                    self.buffer.set_recording(true);
                    self.state = RecorderState::Recording;
                    Ok(())
                } else {
                    Err(RecorderError::UnsupportedFormat)
                }
            },
        }
    }

    /// Callback-side entry: hands a block to the capture buffer, which
    /// takes it only while the flag is up.
    pub fn append(&mut self, block: &Vec<u32>)
        requires
            old(self).wf(),
        ensures
            final(self).wf(),
            final(self).state == old(self).state,
            final(self).sample_rate == old(self).sample_rate,
            final(self).buffer.recording == old(self).buffer.recording,
            final(self).buffer.samples@ == spec_append(
                old(self).buffer.recording,
                old(self).buffer.samples@,
                block@,
            ),
    {
        self.buffer.append(block);
    }

    /// Lowers the flag (so no further samples are accepted), drains the
    /// buffer, and moves to `Idle` — all of that on every path, success
    /// or not. The drain validates: a run under the 0.1-second floor (or
    /// empty) is `RecordingTooShort`; otherwise the drained samples and
    /// the negotiated rate come back as a `ValidatedRecording`.
    pub fn stop_recording(&mut self) -> (r: Result<ValidatedRecording, RecorderError>)
        requires
            old(self).wf(),
        ensures
            final(self).wf(),
            final(self).state is Idle,
            !final(self).buffer.recording,
            final(self).buffer.samples@ == Seq::<u32>::empty(),
            final(self).sample_rate == old(self).sample_rate,
            r is Ok <==> spec_long_enough(old(self).buffer.samples@, old(self).sample_rate),
            r matches Ok(v) ==> {
                &&& v.wf()
                &&& v.samples_spec() == old(self).buffer.samples@
                &&& v.rate_spec() == old(self).sample_rate
            },
            r matches Err(e) ==> e == RecorderError::RecordingTooShort,
    {
        self.buffer.set_recording(false);
        let drained = self.buffer.drain();
        self.state = RecorderState::Idle;
        ValidatedRecording::new(drained, self.sample_rate)
    }
}

} // verus!
