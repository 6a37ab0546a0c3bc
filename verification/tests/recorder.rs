use rust_standup_ai::recording::AudioRecorder;
use rust_standup_ai::recording::CaptureBuffer;
use rust_standup_ai::recording::DeviceConfig;
use rust_standup_ai::recording::RecorderError;
use rust_standup_ai::recording::RecorderState;
use rust_standup_ai::recording::SampleFormat;
use rust_standup_ai::recording::ValidatedRecording;
use rust_standup_ai::recording::min_samples;
use rust_standup_ai::AudioProcessor;

fn float_config(rate: u32) -> DeviceConfig {
    DeviceConfig { sample_rate: rate, channels: 1, format: SampleFormat::Float32 }
}

fn block(n: usize) -> Vec<u32> {
    let mut v = Vec::new();
    for i in 0..n {
        v.push((i as f32).to_bits());
    }
    v
}

#[test]
fn min_samples_is_ceil_of_tenth() {
    assert_eq!(min_samples(44100), 4410);
    assert_eq!(min_samples(44101), 4411);
    assert_eq!(min_samples(48000), 4800);
    assert_eq!(min_samples(0), 0);
    assert_eq!(min_samples(1), 1);
    assert_eq!(min_samples(10), 1);
    assert_eq!(min_samples(11), 2);
    assert_eq!(min_samples(u32::MAX), 429496730);
}

#[test]
fn start_without_device_fails() {
    let mut rec = AudioRecorder::new();
    assert_eq!(rec.start_recording(None), Err(RecorderError::DeviceUnavailable));
    assert_eq!(rec.state, RecorderState::Idle);
}

#[test]
fn start_with_unsupported_format_fails() {
    let mut rec = AudioRecorder::new();
    let cfg = DeviceConfig { sample_rate: 44100, channels: 1, format: SampleFormat::Int16 };
    assert_eq!(rec.start_recording(Some(cfg)), Err(RecorderError::UnsupportedFormat));
    assert_eq!(rec.state, RecorderState::Idle);
    assert_eq!(rec.sample_rate, 44100);
}

#[test]
fn start_twice_yields_already_recording_and_keeps_buffer() {
    let mut rec = AudioRecorder::new();
    assert_eq!(rec.start_recording(Some(float_config(44100))), Ok(()));
    rec.append(&block(5000));
    assert_eq!(rec.buffer.samples.len(), 5000);

    let second = rec.start_recording(Some(float_config(8000)));
    assert_eq!(second, Err(RecorderError::AlreadyRecording));
    assert_eq!(rec.state, RecorderState::Recording);
    assert_eq!(rec.sample_rate, 44100);
    assert_eq!(rec.buffer.samples, block(5000));

    let stopped = rec.stop_recording().expect("5000 samples reach the floor");
    assert_eq!(stopped.len(), 5000);
}

#[test]
fn five_thousand_samples_at_44100_validate() {
    let mut rec = AudioRecorder::new();
    assert_eq!(rec.start_recording(Some(float_config(44100))), Ok(()));
    rec.append(&block(5000));
    let out = rec.stop_recording().expect("5000 >= 4410");
    assert_eq!(out.len(), 5000);
    assert_eq!(out.sample_rate(), 44100);
    assert_eq!(out.samples(), &block(5000));
    assert_eq!(rec.state, RecorderState::Idle);
}

#[test]
fn one_hundred_samples_at_44100_are_too_short() {
    let mut rec = AudioRecorder::new();
    assert_eq!(rec.start_recording(Some(float_config(44100))), Ok(()));
    rec.append(&block(100));
    assert_eq!(rec.stop_recording().unwrap_err(), RecorderError::RecordingTooShort);
    assert_eq!(rec.state, RecorderState::Idle);
    assert!(rec.buffer.samples.is_empty());
}

#[test]
fn exactly_the_floor_validates() {
    let mut rec = AudioRecorder::new();
    assert_eq!(rec.start_recording(Some(float_config(44100))), Ok(()));
    rec.append(&block(4410));
    assert_eq!(rec.stop_recording().expect("at the floor").len(), 4410);

    assert_eq!(rec.start_recording(Some(float_config(44100))), Ok(()));
    rec.append(&block(4409));
    assert_eq!(rec.stop_recording().unwrap_err(), RecorderError::RecordingTooShort);
}

#[test]
fn appends_after_stop_never_reach_the_next_cycle() {
    let mut rec = AudioRecorder::new();
    assert_eq!(rec.start_recording(Some(float_config(44100))), Ok(()));
    rec.append(&block(5000));
    rec.stop_recording().expect("long enough");

    // A capture callback racing past the stop: the flag is already down.
    rec.append(&vec![0xDEADBEEFu32; 64]);
    assert!(rec.buffer.samples.is_empty());

    assert_eq!(rec.start_recording(Some(float_config(44100))), Ok(()));
    rec.append(&block(4410));
    let out = rec.stop_recording().expect("long enough");
    assert_eq!(out.len(), 4410);
    assert!(!out.samples().contains(&0xDEADBEEFu32));
}

#[test]
fn drain_twice_returns_empty_the_second_time() {
    let mut buf = CaptureBuffer::new();
    buf.set_recording(true);
    buf.append(&block(16));
    let first = buf.drain();
    assert_eq!(first, block(16));
    let second = buf.drain();
    assert!(second.is_empty());
}

#[test]
fn append_is_a_no_op_while_the_flag_is_down() {
    let mut buf = CaptureBuffer::new();
    buf.append(&block(16));
    assert!(buf.samples.is_empty());
    buf.set_recording(true);
    buf.append(&block(3));
    assert_eq!(buf.samples.len(), 3);
}

#[test]
fn validated_recording_checks_the_floor() {
    assert_eq!(
        ValidatedRecording::new(block(4409), 44100).unwrap_err(),
        RecorderError::RecordingTooShort,
    );
    assert_eq!(
        ValidatedRecording::new(Vec::new(), 0).unwrap_err(),
        RecorderError::RecordingTooShort,
    );
    let ok = ValidatedRecording::new(block(4410), 44100).expect("at the floor");
    assert_eq!(ok.len(), 4410);
    assert_eq!(ok.sample_rate(), 44100);
}

#[test]
fn processor_starts_idle() {
    let p = AudioProcessor::new("http://localhost:8080/transcripts".to_string(), "k".to_string());
    assert_eq!(p.recorder.state, RecorderState::Idle);
    assert_eq!(p.recorder.sample_rate, 44100);
    assert_eq!(p.api_endpoint, "http://localhost:8080/transcripts");
    assert_eq!(p.api_key, "k");
}
