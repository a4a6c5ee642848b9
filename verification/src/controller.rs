//! The recording session controller: a two-state machine (idle / recording)
//! over a process-wide recording flag and at most one stored recorder.
//!
//! The controller decides every transition; the host layer performs the
//! surrounding effects (opening the stream, running the recognition engine,
//! publishing events) and feeds the results back in. The flag and the
//! stored session are kept consistent on every path, including every error
//! path, so the system can never stay stuck "recording" after a failure.

use crate::errors::SessionError;
use crate::recorder::AudioRecorder;
use vstd::prelude::*;

verus! {

/// A lifecycle notification for the interface layer. Publishing is
/// fire-and-forget and performed by the host layer.
pub enum UiEvent {
    /// Recording was started from the interface button rather than the
    /// global shortcut.
    StartRecordingButton,
    /// Transcription is about to run.
    TranscriptionStarted,
    /// Transcription finished; carries the recognized text.
    TranscriptionComplete(String),
    /// Transcription failed; carries the failure message.
    TranscriptionError(String),
}

/// Owns the shared "is a recording in progress" flag and the single active
/// session object.
pub struct SessionController {
    /// The process-wide recording flag the interface layer reads.
    pub recording: bool,
    /// The active session, present exactly while the flag is set.
    pub session: Option<AudioRecorder>,
}

impl SessionController {
    /// The controller's invariant: the flag agrees with the presence of a
    /// session, and a stored session is well-formed.
    pub open spec fn wf(&self) -> bool {
        &&& self.recording == (self.session is Some)
        &&& match self.session {
            Option::Some(r) => r.wf(),
            Option::None => true,
        }
    }

    /// A controller in the idle state.
    pub fn new() -> (r: SessionController)
        ensures
            r.wf(),
            !r.recording,
            r.session is None,
    {
        SessionController { recording: false, session: None }
    }

    /// Reads the shared recording flag.
    pub fn is_recording(&self) -> (r: bool)
        ensures
            r == self.recording,
    {
        self.recording
    }

    /// The first-checker-wins test made before the recorder is even
    /// constructed: a start may proceed only while the flag is clear.
    pub fn check_can_start(&self) -> (r: Result<(), SessionError>)
        ensures
            self.recording ==> r == Result::<(), SessionError>::Err(
                SessionError::AlreadyRecording,
            ),
            !self.recording ==> r == Result::<(), SessionError>::Ok(()),
    {
        if self.recording {
            Err(SessionError::AlreadyRecording)
        } else {
            Ok(())
        }
    }

    /// Stores a started recorder and sets the flag. A second start without
    /// an intervening stop or cancel fails with `AlreadyRecording` and
    /// leaves the first session — its buffer included — untouched.
    pub fn start_session(&mut self, recorder: AudioRecorder) -> (r: Result<(), SessionError>)
        requires
            old(self).wf(),
            recorder.wf(),
        ensures
            final(self).wf(),
            old(self).recording ==> r == Result::<(), SessionError>::Err(
                SessionError::AlreadyRecording,
            ) && *final(self) == *old(self),
            !old(self).recording ==> r == Result::<(), SessionError>::Ok(())
                && final(self).recording && final(self).session == Some(recorder),
    {
        if self.recording {
            return Err(SessionError::AlreadyRecording);
        }
        self.recording = true;
        self.session = Some(recorder);
        Ok(())
    }

    /// The button-initiated start: identical to `start_session`, but on
    /// success also hands back the notification telling the interface that
    /// recording was button-initiated.
    pub fn start_session_button(&mut self, recorder: AudioRecorder) -> (r: (
        Result<(), SessionError>,
        Option<UiEvent>,
    ))
        requires
            old(self).wf(),
            recorder.wf(),
        ensures
            final(self).wf(),
            old(self).recording ==> r.0 == Result::<(), SessionError>::Err(
                SessionError::AlreadyRecording,
            ) && *final(self) == *old(self) && r.1 is None,
            !old(self).recording ==> r.0 == Result::<(), SessionError>::Ok(())
                && final(self).recording && final(self).session == Some(recorder)
                && r.1 == Some(UiEvent::StartRecordingButton),
    {
        let result = self.start_session(recorder);
        match result {
            Ok(()) => (Ok(()), Some(UiEvent::StartRecordingButton)),
            Err(e) => (Err(e), None),
        }
    }

    /// Clears the flag and discards the session without validating or
    /// transcribing anything. Safe in any state: cancelling while idle is a
    /// no-op rather than an error.
    pub fn cancel_recording(&mut self)
        requires
            old(self).wf(),
        ensures
            final(self).wf(),
            !final(self).recording,
            final(self).session is None,
    {
        self.recording = false;
        self.session = None;
    }

    /// Clears the flag and extracts the session for its stop-and-validate
    /// step. The flag is cleared even when no session exists, so every
    /// terminating path leaves the controller idle; the absence of a
    /// session is the distinct `NoActiveRecording` error.
    pub fn take_session(&mut self) -> (r: Result<AudioRecorder, SessionError>)
        requires
            old(self).wf(),
        ensures
            final(self).wf(),
            !final(self).recording,
            final(self).session is None,
            old(self).session is None ==> r == Result::<AudioRecorder, SessionError>::Err(
                SessionError::NoActiveRecording,
            ),
            old(self).session matches Some(rec) ==> r == Result::<
                AudioRecorder,
                SessionError,
            >::Ok(rec),
    {
        self.recording = false;
        let mut taken: Option<AudioRecorder> = None;
        core::mem::swap(&mut taken, &mut self.session);
        match taken {
            Some(rec) => Ok(rec),
            None => Err(SessionError::NoActiveRecording),
        }
    }
}

/// What a press of the global shortcut calls for.
pub enum ToggleAction {
    /// A recording is in progress: ask it to stop.
    StopRecording,
    /// No recording is in progress: show the recording surface and start
    /// one.
    StartRecording,
}

/// Decides what the global shortcut toggles, from the shared flag: stop
/// the running recording, or start a new one.
pub fn handle_recording_toggle(recording: bool) -> (r: ToggleAction)
    ensures
        recording ==> r is StopRecording,
        !recording ==> r is StartRecording,
{
    if recording {
        ToggleAction::StopRecording
    } else {
        ToggleAction::StartRecording
    }
}

/// Maps the outcome of the recognition engine to the notification the
/// interface layer must receive: the text on success, the message on
/// failure.
pub fn transcription_event(outcome: Result<String, String>) -> (ev: UiEvent)
    ensures
        outcome matches Ok(text) ==> ev == UiEvent::TranscriptionComplete(text),
        outcome matches Err(msg) ==> ev == UiEvent::TranscriptionError(msg),
{
    match outcome {
        Ok(text) => UiEvent::TranscriptionComplete(text),
        Err(msg) => UiEvent::TranscriptionError(msg),
    }
}

} // verus!
