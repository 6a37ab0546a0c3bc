use rust_standup_ai::pipeline::Phase;
use rust_standup_ai::pipeline::Pipeline;
use rust_standup_ai::pipeline::ProcessError;
use rust_standup_ai::pipeline::TranscriptionError;
use rust_standup_ai::pipeline::status_is_success;
use rust_standup_ai::pipeline::upload_body;
use rust_standup_ai::recording::RecorderError;
use rust_standup_ai::recording::ValidatedRecording;
use rust_standup_ai::wav::encode;

fn recording() -> ValidatedRecording {
    ValidatedRecording::new(vec![0x3F800000u32; 4410], 44100).expect("long enough")
}

#[test]
fn status_codes_follow_the_2xx_rule() {
    assert!(!status_is_success(199));
    assert!(status_is_success(200));
    assert!(status_is_success(204));
    assert!(status_is_success(299));
    assert!(!status_is_success(300));
    assert!(!status_is_success(500));
}

#[test]
fn upload_body_is_a_json_object_with_escapes() {
    assert_eq!(upload_body("hello"), b"{\"transcript\":\"hello\"}".to_vec());
    assert_eq!(
        upload_body("he said \"hi\"\\\n"),
        b"{\"transcript\":\"he said \\\"hi\\\"\\\\\\n\"}".to_vec(),
    );
    assert_eq!(
        upload_body("\t\r\x01\x1f"),
        b"{\"transcript\":\"\\t\\r\\u0001\\u001f\"}".to_vec(),
    );
    // Multi-byte UTF-8 passes through untouched.
    assert_eq!(
        upload_body("caf\u{e9}"),
        b"{\"transcript\":\"caf\xc3\xa9\"}".to_vec(),
    );
    // serde_json agrees with the builder on every one of these.
    for t in ["hello", "he said \"hi\"\\\n", "\t\r\x01\x1f", "caf\u{e9}"] {
        let mut m = serde_json::Map::new();
        m.insert("transcript".to_string(), serde_json::Value::String(t.to_string()));
        let reference = serde_json::to_vec(&serde_json::Value::Object(m)).unwrap();
        assert_eq!(upload_body(t), reference);
    }
}

#[test]
fn full_success_returns_the_transcript() {
    let mut p = Pipeline::begin(Ok(recording()));
    assert_eq!(p.phase, Phase::NeedWrite);
    assert_eq!(p.artifact, encode(&recording()).expect("fits"));
    p.on_written(true);
    assert_eq!(p.phase, Phase::NeedTranscribe);
    p.on_transcribed(Ok("standup notes".to_string()));
    assert_eq!(p.phase, Phase::NeedUpload);
    p.on_uploaded(Some(200));
    assert_eq!(p.phase, Phase::NeedDelete);
    p.on_deleted();
    assert_eq!(p.phase, Phase::Finished);
    assert!(p.cleanup_requested);
    assert_eq!(p.into_result(), Ok("standup notes".to_string()));
}

#[test]
fn a_recorder_failure_finishes_without_touching_any_file() {
    let p = Pipeline::begin(Err(RecorderError::RecordingTooShort));
    assert_eq!(p.phase, Phase::Finished);
    assert!(!p.file_touched);
    assert_eq!(
        p.into_result(),
        Err(ProcessError::Recorder(RecorderError::RecordingTooShort)),
    );
}

#[test]
fn a_failed_write_still_cleans_up() {
    let mut p = Pipeline::begin(Ok(recording()));
    p.on_written(false);
    assert_eq!(p.phase, Phase::NeedDelete);
    p.on_deleted();
    assert!(p.cleanup_requested);
    assert_eq!(p.into_result(), Err(ProcessError::Encode));
}

#[test]
fn a_failed_transcription_skips_the_upload_but_deletes() {
    let mut p = Pipeline::begin(Ok(recording()));
    p.on_written(true);
    p.on_transcribed(Err(TranscriptionError::Io));
    assert_eq!(p.phase, Phase::NeedDelete);
    p.on_deleted();
    assert!(p.cleanup_requested);
    assert_eq!(
        p.into_result(),
        Err(ProcessError::Transcription(TranscriptionError::Io)),
    );
}

#[test]
fn a_remote_transcription_failure_is_reported_as_such() {
    let mut p = Pipeline::begin(Ok(recording()));
    p.on_written(true);
    p.on_transcribed(Err(TranscriptionError::Service));
    p.on_deleted();
    assert_eq!(
        p.into_result(),
        Err(ProcessError::Transcription(TranscriptionError::Service)),
    );
}

#[test]
fn a_declined_upload_carries_its_status_and_deletes() {
    let mut p = Pipeline::begin(Ok(recording()));
    p.on_written(true);
    p.on_transcribed(Ok("text".to_string()));
    p.on_uploaded(Some(503));
    p.on_deleted();
    assert!(p.cleanup_requested);
    assert_eq!(p.into_result(), Err(ProcessError::Upload(Some(503))));
}

#[test]
fn an_unanswered_upload_is_a_network_failure_and_deletes() {
    let mut p = Pipeline::begin(Ok(recording()));
    p.on_written(true);
    p.on_transcribed(Ok("text".to_string()));
    p.on_uploaded(None);
    p.on_deleted();
    assert_eq!(p.into_result(), Err(ProcessError::Upload(None)));
}
