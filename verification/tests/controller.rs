use dictation::controller::{handle_recording_toggle, transcription_event, SessionController, ToggleAction, UiEvent};
use dictation::errors::SessionError;
use dictation::recorder::AudioRecorder;
use dictation::sample::SAMPLE_SCALE;

fn started_recorder() -> AudioRecorder {
    let mut rec = AudioRecorder::new(None, 16000, 1);
    rec.start(16000, 1);
    rec
}

#[test]
fn double_start_is_already_recording_and_preserves_first_session() {
    let mut c = SessionController::new();
    let mut first = started_recorder();
    first.push_chunk(&vec![SAMPLE_SCALE / 10; 123]);
    assert!(c.start_session(first).is_ok());

    let second = started_recorder();
    let r = c.start_session(second);
    assert_eq!(r, Err(SessionError::AlreadyRecording));
    // The first session's buffer is untouched by the failed second start.
    assert!(c.recording);
    let stored = c.session.as_ref().expect("first session still stored");
    assert_eq!(stored.buffer.len(), 123);
    assert_eq!(stored.buffer[0], SAMPLE_SCALE / 10);
}

#[test]
fn stop_before_any_start_is_no_active_recording() {
    // Distinct from the recorder-level empty-buffer failure.
    let mut c = SessionController::new();
    let r = c.take_session();
    assert!(matches!(r, Err(SessionError::NoActiveRecording)));
    assert!(!c.recording);
}

#[test]
fn cancel_is_idempotent_and_clears_state() {
    let mut c = SessionController::new();
    c.cancel_recording();
    assert!(!c.recording);
    assert!(c.start_session(started_recorder()).is_ok());
    c.cancel_recording();
    assert!(!c.recording);
    assert!(c.session.is_none());
    c.cancel_recording();
    assert!(!c.recording);
}

#[test]
fn take_session_returns_the_stored_recorder_and_clears_flag() {
    let mut c = SessionController::new();
    let mut rec = started_recorder();
    rec.push_chunk(&vec![SAMPLE_SCALE / 10; 10]);
    assert!(c.start_session(rec).is_ok());
    let taken = c.take_session().expect("session present");
    assert_eq!(taken.buffer.len(), 10);
    assert!(!c.recording);
    assert!(c.session.is_none());
}

#[test]
fn check_can_start_mirrors_the_flag() {
    let mut c = SessionController::new();
    assert!(c.check_can_start().is_ok());
    assert!(c.start_session(started_recorder()).is_ok());
    assert_eq!(c.check_can_start(), Err(SessionError::AlreadyRecording));
}

#[test]
fn button_mode_emits_only_on_success() {
    let mut c = SessionController::new();
    let (r, ev) = c.start_session_button(started_recorder());
    assert!(r.is_ok());
    assert!(matches!(ev, Some(UiEvent::StartRecordingButton)));
    let (r2, ev2) = c.start_session_button(started_recorder());
    assert_eq!(r2, Err(SessionError::AlreadyRecording));
    assert!(ev2.is_none());
}

#[test]
fn transcription_events_carry_text_or_message() {
    match transcription_event(Ok("hello there".to_string())) {
        UiEvent::TranscriptionComplete(text) => assert_eq!(text, "hello there"),
        _ => panic!("expected completion event"),
    }
    match transcription_event(Err("engine failed".to_string())) {
        UiEvent::TranscriptionError(msg) => assert_eq!(msg, "engine failed"),
        _ => panic!("expected error event"),
    }
}

#[test]
fn session_error_messages() {
    assert_eq!(SessionError::AlreadyRecording.message(), "Already recording");
    assert_eq!(SessionError::NoActiveRecording.message(), "No active recording");
    assert_eq!(SessionError::NoModelLoaded.message(), "No whisper model loaded");
}

#[test]
fn shortcut_toggle_follows_the_flag() {
    assert!(matches!(handle_recording_toggle(true), ToggleAction::StopRecording));
    assert!(matches!(handle_recording_toggle(false), ToggleAction::StartRecording));
}
