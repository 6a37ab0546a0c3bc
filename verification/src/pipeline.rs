//! The processing pipeline that follows a stop: encode the validated
//! recording, write the artifact, transcribe it, upload the transcript,
//! and delete the artifact.
//!
//! The outside steps — the file write, the two HTTP calls, the delete —
//! are performed by the surrounding program; this state machine decides
//! what happens next after each of them and guarantees the error policy:
//! any stage failure short-circuits the remaining stages, and once the
//! artifact file has been touched its deletion is always requested, but
//! only after transcription has been attempted (or the pipeline failed
//! before transcription could start).

use vstd::prelude::*;
use vstd::string::StringSliceAdditionalSpecFns;
use crate::recording::RecorderError;
use crate::recording::ValidatedRecording;
use crate::wav::EncodeError;
use crate::wav::MAX_WAV_RATE;
use crate::wav::MAX_WAV_SAMPLES;
use crate::wav::encode;
use crate::wav::spec_wav_bytes;

verus! {

/// Why a transcription attempt failed: locally (reading or sending) or at
/// the remote service.
#[derive(Clone, Copy, PartialEq, Eq, Structural, Debug)]
pub enum TranscriptionError {
    Io,
    Service,
}

/// Everything the pipeline can report: a recorder failure, an encode or
/// artifact-write failure, a failed transcription attempt, or a failed
/// upload (the declined status code, or `None` for a network failure).
#[derive(Clone, Copy, PartialEq, Eq, Debug)]
pub enum ProcessError {
    Recorder(RecorderError),
    Encode,
    Transcription(TranscriptionError),
    Upload(Option<u16>),
}

/// Where the pipeline stands: which outside step it is waiting for.
#[derive(Clone, Copy, PartialEq, Eq, Structural, Debug)]
pub enum Phase {
    NeedWrite,
    NeedTranscribe,
    NeedUpload,
    NeedDelete,
    Finished,
}

/// An upload answer counts as success exactly for the 2xx status codes.
pub open spec fn spec_status_ok(status: u16) -> bool {
    200 <= status < 300
}

/// Executable form of the 2xx check.
pub fn status_is_success(status: u16) -> (r: bool)
    ensures
        r == spec_status_ok(status),
{
    200 <= status && status < 300
}

/// The hexadecimal digit for a value under sixteen, lower case.
pub open spec fn spec_hex_digit(v: u8) -> u8 {
    if v < 10 {
        (0x30 + v) as u8
    } else {
        (0x57 + v) as u8
    }
}

/// How one byte of a transcript appears inside a JSON string literal:
/// quote, backslash and the common control characters get their two-byte
/// escapes, the remaining control bytes the `\u00XX` form, and every
/// other byte stands as itself (UTF-8 continuation bytes included).
pub open spec fn spec_escape_byte(b: u8) -> Seq<u8> {
    if b == 0x22 {
        seq![0x5Cu8, 0x22u8]  // \"
    } else if b == 0x5C {
        seq![0x5Cu8, 0x5Cu8]  // double backslash
    } else if b == 0x0A {
        seq![0x5Cu8, 0x6Eu8]  // \n
    } else if b == 0x0D {
        seq![0x5Cu8, 0x72u8]  // \r
    } else if b == 0x09 {
        seq![0x5Cu8, 0x74u8]  // \t
    } else if b < 0x20 {
        seq![0x5Cu8, 0x75u8, 0x30u8, 0x30u8, spec_hex_digit(b / 16), spec_hex_digit(b % 16)]
    } else {
        seq![b]
    }
}

/// A whole transcript, escaped byte for byte.
pub open spec fn spec_json_escaped(s: Seq<u8>) -> Seq<u8>
    decreases s.len(),
{
    if s.len() == 0 {
        Seq::empty()
    } else {
        spec_json_escaped(s.drop_last()) + spec_escape_byte(s.last())
    }
}

/// The bytes of `{"transcript":"` — the opening of the upload body.
pub open spec fn spec_upload_prefix() -> Seq<u8> {
    seq![
        0x7Bu8, 0x22u8, 0x74u8, 0x72u8, 0x61u8, 0x6Eu8, 0x73u8, 0x63u8,
        0x72u8, 0x69u8, 0x70u8, 0x74u8, 0x22u8, 0x3Au8, 0x22u8,
    ]
}

/// The whole upload body: `{"transcript":"` then the escaped transcript,
/// then `"}`.
pub open spec fn spec_upload_body(transcript: Seq<u8>) -> Seq<u8> {
    spec_upload_prefix() + spec_json_escaped(transcript) + seq![0x22u8, 0x7Du8]
}

fn hex_digit(v: u8) -> (r: u8)
    requires
        v < 16,
    ensures
        r == spec_hex_digit(v),
{
    if v < 10 {
        0x30 + v
    } else {
        0x57 + v
    }
}

/// The JSON body of the transcript upload, built byte for byte over the
/// transcript's UTF-8 bytes: exactly `spec_upload_body`, a single-field
/// object with a correctly escaped string value.
pub fn upload_body(transcript: &str) -> (r: Vec<u8>)
    ensures
        r@ == spec_upload_body(transcript.spec_bytes()),
{
    let bytes: &[u8] = transcript.as_bytes();
    let mut out: Vec<u8> = Vec::new();
    out.push(0x7B);
    out.push(0x22);
    out.push(0x74);
    out.push(0x72);
    out.push(0x61);
    out.push(0x6E);
    out.push(0x73);
    out.push(0x63);
    out.push(0x72);
    out.push(0x69);
    out.push(0x70);
    out.push(0x74);
    out.push(0x22);
    out.push(0x3A);
    out.push(0x22);
    proof {
        assert(out@ =~= spec_upload_prefix());
    }
    let mut i: usize = 0;
    while i < bytes.len()
        invariant
            i <= bytes@.len(),
            bytes@ == transcript.spec_bytes(),
            out@ == spec_upload_prefix() + spec_json_escaped(bytes@.take(i as int)),
        decreases bytes@.len() - i,
    {
        let b = bytes[i];
        if b == 0x22 {
            out.push(0x5C);
            out.push(0x22);
        } else if b == 0x5C {
            out.push(0x5C);
            out.push(0x5C);
        } else if b == 0x0A {
            out.push(0x5C);
            out.push(0x6E);
        } else if b == 0x0D {
            out.push(0x5C);
            out.push(0x72);
        } else if b == 0x09 {
            out.push(0x5C);
            out.push(0x74);
        } else if b < 0x20 {
            out.push(0x5C);
            out.push(0x75);
            out.push(0x30);
            out.push(0x30);
            out.push(hex_digit(b / 16));
            out.push(hex_digit(b % 16));
        } else {
            out.push(b);
        }
        proof {
            assert(bytes@.take(i as int + 1).drop_last() =~= bytes@.take(i as int));
            assert(bytes@.take(i as int + 1).last() == bytes@[i as int]);
            assert(out@ =~= spec_upload_prefix()
                + spec_json_escaped(bytes@.take(i as int + 1)));
        }
        i = i + 1;
    }
    proof {
        assert(bytes@.take(bytes@.len() as int) =~= bytes@);
    }
    out.push(0x22);
    out.push(0x7D);
    proof {
        assert(out@ =~= spec_upload_body(transcript.spec_bytes()));
    }
    out
}

/// One run of the pipeline, driven from the outside: the program performs
/// the step `phase` names and reports what happened; the machine decides
/// the next step and accumulates the outcome.
pub struct Pipeline {
    pub phase: Phase,
    /// The encoded artifact bytes, produced at construction and consumed
    /// by the write step.
    pub artifact: Vec<u8>,
    /// The transcript, once transcription has succeeded.
    pub transcript: String,
    /// The first failure, if any stage has failed.
    pub failure: Option<ProcessError>,
    /// Whether the artifact file may exist on disk (a write was
    /// attempted, successfully or not).
    pub file_touched: bool,
    /// Whether deletion of the artifact file has been requested.
    pub cleanup_requested: bool,
}

impl Pipeline {
    /// The no-leakage discipline every reachable pipeline value obeys:
    /// before anything was written nothing needs cleaning; a touched file
    /// is never abandoned — by the time the pipeline finishes, its
    /// deletion has been requested; and the upload step is only ever
    /// reached with a transcript in hand and the artifact still pending
    /// cleanup.
    pub open spec fn wf(self) -> bool {
        &&& self.cleanup_requested ==> self.file_touched
        &&& self.phase is NeedWrite ==> !self.file_touched && self.failure is None
        &&& self.phase is NeedTranscribe ==> self.file_touched && self.failure is None
        &&& self.phase is NeedUpload ==> self.file_touched && self.failure is None
        &&& self.phase is NeedDelete ==> self.file_touched
        &&& (self.phase is NeedTranscribe || self.phase is NeedUpload
            || self.phase is NeedDelete) ==> !self.cleanup_requested
        &&& self.phase is Finished ==> (self.file_touched ==> self.cleanup_requested)
    }

    /// Builds the pipeline from what `stop_recording` returned. A
    /// recorder failure finishes at once with that failure; otherwise the
    /// recording is encoded here, and only an oversize recording can
    /// refuse — the pipeline then finishes with the encode failure and no
    /// file is ever touched. On success the artifact bytes are ready and
    /// the write step is next.
    pub fn begin(stopped: Result<ValidatedRecording, RecorderError>) -> (r: Pipeline)
        requires
            stopped matches Ok(v) ==> v.wf(),
        ensures
            r.wf(),
            !r.file_touched,
            !r.cleanup_requested,
            stopped matches Err(e) ==> {
                &&& r.phase is Finished
                &&& r.failure == Some(ProcessError::Recorder(e))
            },
            stopped matches Ok(v) ==> {
                if v.samples_spec().len() <= MAX_WAV_SAMPLES && v.rate_spec() <= MAX_WAV_RATE {
                    &&& r.phase is NeedWrite
                    &&& r.failure is None
                    &&& r.artifact@ == spec_wav_bytes(v.samples_spec(), v.rate_spec())
                } else {
                    &&& r.phase is Finished
                    &&& r.failure == Some(ProcessError::Encode)
                }
            },
    {
        match stopped {
            Err(e) => Pipeline {
                phase: Phase::Finished,
                artifact: Vec::new(),
                transcript: String::new(),
                failure: Some(ProcessError::Recorder(e)),
                file_touched: false,
                cleanup_requested: false,
            },
            Ok(v) => match encode(&v) {
                Err(EncodeError) => Pipeline {
                    phase: Phase::Finished,
                    artifact: Vec::new(),
                    transcript: String::new(),
                    failure: Some(ProcessError::Encode),
                    file_touched: false,
                    cleanup_requested: false,
                },
                Ok(bytes) => Pipeline {
                    phase: Phase::NeedWrite,
                    artifact: bytes,
                    transcript: String::new(),
                    failure: None,
                    file_touched: false,
                    cleanup_requested: false,
                },
            },
        }
    }

    /// The write step's report. Success moves on to transcription. A
    /// failed write is an encode failure, and since a partial file may
    /// have been left behind, the delete step still follows
    /// (finalize-or-delete: a failed encode must not leave a usable
    /// artifact).
    pub fn on_written(&mut self, ok: bool)
        requires
            old(self).wf(),
            old(self).phase is NeedWrite,
        ensures
            final(self).wf(),
            final(self).file_touched,
            final(self).transcript@ == old(self).transcript@,
            if ok {
                &&& final(self).phase is NeedTranscribe
                &&& final(self).failure is None
            } else {
                &&& final(self).phase is NeedDelete
                &&& final(self).failure == Some(ProcessError::Encode)
            },
    {
        self.file_touched = true;
        if ok {
            self.phase = Phase::NeedTranscribe;
        } else {
            self.phase = Phase::NeedDelete;
            self.failure = Some(ProcessError::Encode);
        }
    }

    /// The transcription attempt's report. Success carries the transcript
    /// on to the upload step; failure short-circuits the upload — but
    /// either way transcription has now been attempted, so a failure goes
    /// straight to the delete step.
    pub fn on_transcribed(&mut self, outcome: Result<String, TranscriptionError>)
        requires
            old(self).wf(),
            old(self).phase is NeedTranscribe,
        ensures
            final(self).wf(),
            final(self).file_touched,
            match outcome {
                Ok(text) => {
                    &&& final(self).phase is NeedUpload
                    &&& final(self).failure is None
                    &&& final(self).transcript@ == text@
                },
                Err(e) => {
                    &&& final(self).phase is NeedDelete
                    &&& final(self).failure == Some(ProcessError::Transcription(e))
                },
            },
    {
        match outcome {
            Ok(text) => {
                self.transcript = text;
                self.phase = Phase::NeedUpload;
            },
            Err(e) => {
                self.failure = Some(ProcessError::Transcription(e));
                self.phase = Phase::NeedDelete;
            },
        }
    }

    /// The upload attempt's report: the response status, or `None` when
    /// the request never got an answer. Any non-2xx answer is an upload
    /// failure carrying that status. Whatever happened, the delete step
    /// is next — the artifact is removed regardless of the upload
    /// outcome.
    pub fn on_uploaded(&mut self, status: Option<u16>)
        requires
            old(self).wf(),
            old(self).phase is NeedUpload,
        ensures
            final(self).wf(),
            final(self).phase is NeedDelete,
            final(self).transcript@ == old(self).transcript@,
            match status {
                Some(s) => if spec_status_ok(s) {
                    final(self).failure is None
                } else {
                    final(self).failure == Some(ProcessError::Upload(Some(s)))
                },
                None => final(self).failure == Some(ProcessError::Upload(None)),
            },
    {
        match status {
            Some(s) => {
                if !status_is_success(s) {
                    self.failure = Some(ProcessError::Upload(Some(s)));
                }
            },
            None => {
                self.failure = Some(ProcessError::Upload(None));
            },
        }
        self.phase = Phase::NeedDelete;
    }

    /// The delete step's report: cleanup has been requested, and the
    /// pipeline is finished with whatever outcome it had accumulated. A
    /// failed delete cannot change the outcome.
    pub fn on_deleted(&mut self)
        requires
            old(self).wf(),
            old(self).phase is NeedDelete,
        ensures
            final(self).wf(),
            final(self).phase is Finished,
            final(self).cleanup_requested,
            final(self).failure == old(self).failure,
            final(self).transcript@ == old(self).transcript@,
    {
        self.cleanup_requested = true;
        self.phase = Phase::Finished;
    }

    /// What the finished pipeline reports: the transcript on full
    /// success, the first failure otherwise.
    pub fn into_result(self) -> (r: Result<String, ProcessError>)
        requires
            self.phase is Finished,
        ensures
            match self.failure {
                Some(e) => r == Err::<String, ProcessError>(e),
                None => r matches Ok(text) && text@ == self.transcript@,
            },
    {
        match self.failure {
            Some(e) => Err(e),
            None => Ok(self.transcript),
        }
    }
}

} // verus!
