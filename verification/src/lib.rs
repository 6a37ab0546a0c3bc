//! Microphone-capture core: a recorder state machine with a thread-shared
//! sample buffer, minimum-duration validation, a deterministic waveform
//! encoder, and the processing pipeline that sequences stop, encode,
//! transcribe, upload and cleanup.
//!
//! Device access, file writes and the HTTP calls live outside this crate;
//! they hand plain values in and take plain values back.

pub mod recording;
pub mod wav;
pub mod pipeline;

use vstd::prelude::*;
use crate::recording::AudioRecorder;
use crate::recording::DeviceConfig;
use crate::recording::RecorderError;

verus! {

/// Owns one recorder together with the endpoint and key that the
/// surrounding program uses for the transcript upload.
pub struct AudioProcessor {
    pub recorder: AudioRecorder,
    pub api_endpoint: String,
    pub api_key: String,
}

impl AudioProcessor {
    /// A fresh processor: idle recorder, empty buffer, default rate.
    pub fn new(api_endpoint: String, api_key: String) -> (r: AudioProcessor)
        ensures
            r.recorder.wf(),
            r.recorder.state is Idle,
            !r.recorder.buffer.recording,
            r.recorder.buffer.samples@ == Seq::<u32>::empty(),
            r.recorder.sample_rate == 44100,
            r.api_endpoint@ == api_endpoint@,
            r.api_key@ == api_key@,
    {
        AudioProcessor {
            recorder: AudioRecorder::new(),
            api_endpoint,
            api_key,
        }
    }

    /// Starts a recording cycle on the owned recorder; see
    /// `AudioRecorder::start_recording` for the full contract.
    pub fn start_recording(&mut self, probe: Option<DeviceConfig>) -> (r: Result<
        (),
        RecorderError,
    >)
        requires
            old(self).recorder.wf(),
        ensures
            final(self).recorder.wf(),
            final(self).api_endpoint@ == old(self).api_endpoint@,
            final(self).api_key@ == old(self).api_key@,
            r == crate::recording::spec_start_result(old(self).recorder.state, probe),
            final(self).recorder.state == crate::recording::spec_start_state(
                old(self).recorder.state,
                probe,
            ),
            final(self).recorder.sample_rate == crate::recording::spec_start_rate(
                old(self).recorder.state,
                old(self).recorder.sample_rate,
                probe,
            ),
            final(self).recorder.buffer.samples@ == old(self).recorder.buffer.samples@,
    {
        self.recorder.start_recording(probe)
    }
}

} // verus!
