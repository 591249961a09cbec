use whisperlite::controller::{save_transcript_response, ControllerState, RecordingController};
use whisperlite::transcript::TranscriptBuffer;

#[test]
fn fragments_in_submission_order() {
    // A stub transcriber that returns each chunk's index: the
    // transcript lists the indices in ascending order exactly once.
    let mut buf = TranscriptBuffer::new();
    let frags: Vec<String> = (0..8).map(|i: i32| i.to_string()).collect();
    buf.push_all(frags);
    assert_eq!(buf.get_full_text(), "0 1 2 3 4 5 6 7");
}

#[test]
fn empty_buffer_reads_empty() {
    let buf = TranscriptBuffer::new();
    assert_eq!(buf.get_full_text(), "");
}

#[test]
fn single_fragment_no_separator() {
    let mut buf = TranscriptBuffer::new();
    buf.push("alone".to_string());
    assert_eq!(buf.get_full_text(), "alone");
}

#[test]
fn second_start_rejected_first_session_unaffected() {
    let mut c = RecordingController::new();
    let (resp, kill) = c.start_finish(true, true);
    assert!(resp.success);
    assert!(!kill);
    assert_eq!(resp.message.as_deref(), Some("Recording started"));
    assert_eq!(c.state, ControllerState::Recording);

    c.push_fragment("first".to_string());

    // Second start with no intervening stop.
    let rejected = c.start_begin();
    let rejected = rejected.expect("second start must be rejected");
    assert!(!rejected.success);
    assert_eq!(rejected.message.as_deref(), Some("Already recording"));
    assert!(rejected.error.is_none());

    // The first session keeps accumulating.
    assert_eq!(c.state, ControllerState::Recording);
    c.push_fragment("second".to_string());
    let snap = c.get_transcript();
    assert_eq!(snap.transcript.as_deref(), Some("first second"));
}

#[test]
fn stop_while_idle_keeps_transcript() {
    let mut c = RecordingController::new();
    c.push_fragment("kept".to_string());
    let (resp, teardown) = c.stop_transcription();
    assert!(!resp.success);
    assert!(!teardown);
    assert_eq!(resp.message.as_deref(), Some("Not recording"));
    assert_eq!(c.state, ControllerState::Idle);
    let snap = c.get_transcript();
    assert_eq!(snap.transcript.as_deref(), Some("kept"));
}

#[test]
fn stop_while_recording_tears_down() {
    let mut c = RecordingController::new();
    let _ = c.start_finish(true, true);
    let (resp, teardown) = c.stop_transcription();
    assert!(resp.success);
    assert!(teardown);
    assert_eq!(resp.message.as_deref(), Some("Recording stopped"));
    assert_eq!(c.state, ControllerState::Idle);
    assert!(!c.transcriber_live);
    assert!(!c.stream_live);
}

#[test]
fn clear_then_get_is_empty() {
    let mut c = RecordingController::new();
    c.push_fragment("one".to_string());
    c.push_fragment("two".to_string());
    let resp = c.clear_transcript();
    assert!(resp.success);
    assert_eq!(resp.message.as_deref(), Some("Transcript cleared"));
    let snap = c.get_transcript();
    assert_eq!(snap.transcript.as_deref(), Some(""));
}

#[test]
fn persister_snapshots_identical_without_new_fragments() {
    // Two flush intervals with no fragment pushed in between read the
    // same content, so the target file is overwritten idempotently.
    let mut c = RecordingController::new();
    c.push_fragment("steady".to_string());
    c.push_fragment("state".to_string());
    let first = c.get_transcript().transcript.unwrap();
    let second = c.get_transcript().transcript.unwrap();
    assert_eq!(first, second);
    assert_eq!(first, "steady state");
}

#[test]
fn device_failure_rolls_back_spawned_recognizer() {
    // The audio-device step fails after the recognizer was spawned:
    // the controller directs the caller to kill it, holds no session
    // resource, and stays idle.
    let mut c = RecordingController::new();
    let none = c.start_begin();
    assert!(none.is_none());
    let (resp, kill) = c.start_finish(true, false);
    assert!(!resp.success);
    assert!(kill);
    assert_eq!(resp.error.as_deref(), Some("Failed to start audio capture"));
    assert_eq!(c.state, ControllerState::Idle);
    assert!(!c.transcriber_live);
    assert!(!c.stream_live);

    // A later start is not blocked by the failed one.
    let (resp, kill) = c.start_finish(true, true);
    assert!(resp.success);
    assert!(!kill);
    assert_eq!(c.state, ControllerState::Recording);
}

#[test]
fn spawn_failure_needs_no_rollback() {
    let mut c = RecordingController::new();
    let (resp, kill) = c.start_finish(false, false);
    assert!(!resp.success);
    assert!(!kill);
    assert_eq!(resp.error.as_deref(), Some("Failed to spawn recognizer process"));
    assert_eq!(c.state, ControllerState::Idle);
    assert!(!c.transcriber_live);
}

#[test]
fn save_response_reports_path_or_error() {
    let ok = save_transcript_response(Ok("/downloads/t.txt".to_string()));
    assert!(ok.success);
    assert_eq!(ok.message.as_deref(), Some("Transcript saved"));
    assert_eq!(ok.path.as_deref(), Some("/downloads/t.txt"));

    let err = save_transcript_response(Err("No downloads directory found".to_string()));
    assert!(!err.success);
    assert_eq!(err.error.as_deref(), Some("No downloads directory found"));
    assert!(err.path.is_none());
}
