//! Failure taxonomy of the dictation pipeline.
//!
//! Every failure is value-returned and carries a distinct variant so the
//! interface layer can give targeted guidance; each variant renders to a
//! fixed, fully specified message.

use crate::text::{dec_str, u64_to_string};
use vstd::prelude::*;
use vstd::string::StringExecFns;

verus! {

/// What went wrong while validating a finished capture.
#[derive(Debug, Clone)]
pub enum CaptureError {
    /// The driver never delivered a single chunk: the liveness mark was
    /// never set. Distinct from delivering silence.
    NoAudioReceived,
    /// Chunks arrived but the buffer ended empty.
    EmptyCapture,
    /// The capture's root-mean-square amplitude fell below the threshold;
    /// carries the measured value in millionths of full scale.
    TooQuiet { rms_micro: u64 },
}

/// The message text of a capture failure.
pub open spec fn capture_error_message(e: CaptureError) -> Seq<char> {
    match e {
        CaptureError::NoAudioReceived => "No audio data received. Check the microphone permission."@,
        CaptureError::EmptyCapture => "No audio captured. Recording too short or microphone not working."@,
        CaptureError::TooQuiet { rms_micro } => "Audio too quiet (RMS micro: "@ + dec_str(
            rms_micro as int,
        ) + "). Speak louder or check microphone settings."@,
    }
}

impl CaptureError {
    /// Renders the user-facing message.
    pub fn message(&self) -> (r: String)
        ensures
            r@ == capture_error_message(*self),
    {
        match self {
            CaptureError::NoAudioReceived => String::from_str(
                "No audio data received. Check the microphone permission.",
            ),
            CaptureError::EmptyCapture => String::from_str(
                "No audio captured. Recording too short or microphone not working.",
            ),
            CaptureError::TooQuiet { rms_micro } => {
                let mut s = String::from_str("Audio too quiet (RMS micro: ");
                let num = u64_to_string(*rms_micro);
                s.append(num.as_str());
                s.append("). Speak louder or check microphone settings.");
                s
            },
        }
    }
}

/// What went wrong while resolving or opening an input device. The host
/// layer constructs these from what the audio host reports; the messages
/// are fixed here.
#[derive(Debug, Clone)]
pub enum DeviceError {
    /// The host reported zero input devices; capture would be guaranteed
    /// to fail, so this is a hard error rather than an empty success.
    NoDevices,
    /// The system refused microphone access; user-actionable, with the
    /// remediation in the message.
    PermissionDenied,
    /// The requested device is gone; retryable by re-enumerating.
    DeviceNotFound { name: String },
    /// The device refused to report a usable configuration.
    ConfigError { detail: String },
}

/// The message text of a device failure.
pub open spec fn device_error_message(e: DeviceError) -> Seq<char> {
    match e {
        DeviceError::NoDevices => "No input devices found"@,
        DeviceError::PermissionDenied => "Microphone permission denied. Please grant access in the system privacy settings."@,
        DeviceError::DeviceNotFound { name } => "Device '"@ + name@ + "' not found"@,
        DeviceError::ConfigError { detail } => "Failed to get input config: "@ + detail@,
    }
}

impl DeviceError {
    /// Renders the user-facing message.
    pub fn message(&self) -> (r: String)
        ensures
            r@ == device_error_message(*self),
    {
        match self {
            DeviceError::NoDevices => String::from_str("No input devices found"),
            DeviceError::PermissionDenied => String::from_str(
                "Microphone permission denied. Please grant access in the system privacy settings.",
            ),
            DeviceError::DeviceNotFound { name } => {
                let mut s = String::from_str("Device '");
                s.append(name.as_str());
                s.append("' not found");
                s
            },
            DeviceError::ConfigError { detail } => {
                let mut s = String::from_str("Failed to get input config: ");
                s.append(detail.as_str());
                s
            },
        }
    }
}

/// What went wrong inside the sample-rate converter: an internal numeric
/// failure, not user-actionable. The host layer constructs these around
/// its interpolator.
#[derive(Debug, Clone)]
pub enum ResampleError {
    /// The converter could not be built for the requested rate pair.
    InitFailed { detail: String },
    /// The conversion itself failed.
    Failed { detail: String },
}

/// The message text of a conversion failure.
pub open spec fn resample_error_message(e: ResampleError) -> Seq<char> {
    match e {
        ResampleError::InitFailed { detail } => "Failed to create resampler: "@ + detail@,
        ResampleError::Failed { detail } => "Resampling failed: "@ + detail@,
    }
}

impl ResampleError {
    /// Renders the user-facing message.
    pub fn message(&self) -> (r: String)
        ensures
            r@ == resample_error_message(*self),
    {
        match self {
            ResampleError::InitFailed { detail } => {
                let mut s = String::from_str("Failed to create resampler: ");
                s.append(detail.as_str());
                s
            },
            ResampleError::Failed { detail } => {
                let mut s = String::from_str("Resampling failed: ");
                s.append(detail.as_str());
                s
            },
        }
    }
}

/// An engine-internal transcription failure: surfaced verbatim, and the
/// session still resets cleanly to idle.
#[derive(Debug, Clone)]
pub enum InferenceError {
    /// The recognition engine failed while decoding.
    InferenceFailed { detail: String },
}

/// The message text of an engine failure.
pub open spec fn inference_error_message(e: InferenceError) -> Seq<char> {
    match e {
        InferenceError::InferenceFailed { detail } => "Transcription failed: "@ + detail@,
    }
}

impl InferenceError {
    /// Renders the user-facing message.
    pub fn message(&self) -> (r: String)
        ensures
            r@ == inference_error_message(*self),
    {
        match self {
            InferenceError::InferenceFailed { detail } => {
                let mut s = String::from_str("Transcription failed: ");
                s.append(detail.as_str());
                s
            },
        }
    }
}

/// What went wrong while driving the recording session state machine.
#[derive(Debug, Clone, PartialEq, Eq, Structural)]
pub enum SessionError {
    /// A start was requested while the recording flag was already set.
    AlreadyRecording,
    /// A stop was requested with no session object stored.
    NoActiveRecording,
    /// Transcription was requested with no recognition model loaded.
    NoModelLoaded,
}

/// The message text of a session failure.
pub open spec fn session_error_message(e: SessionError) -> Seq<char> {
    match e {
        SessionError::AlreadyRecording => "Already recording"@,
        SessionError::NoActiveRecording => "No active recording"@,
        SessionError::NoModelLoaded => "No whisper model loaded"@,
    }
}

impl SessionError {
    /// Renders the user-facing message.
    pub fn message(&self) -> (r: String)
        ensures
            r@ == session_error_message(*self),
    {
        match self {
            SessionError::AlreadyRecording => String::from_str("Already recording"),
            SessionError::NoActiveRecording => String::from_str("No active recording"),
            SessionError::NoModelLoaded => String::from_str("No whisper model loaded"),
        }
    }
}

/// What went wrong while resolving or activating a recognition model.
#[derive(Debug, Clone)]
pub enum ModelError {
    /// The requested id is not in the compiled-in catalog.
    UnknownModel { id: String },
    /// The id is known but its file is not present locally.
    NotDownloaded { id: String },
    /// The file is present but the engine refused to load it; the host
    /// layer constructs this around its engine.
    LoadFailed { detail: String },
}

/// The message text of a model failure.
pub open spec fn model_error_message(e: ModelError) -> Seq<char> {
    match e {
        ModelError::UnknownModel { id } => "Unknown model: "@ + id@,
        ModelError::NotDownloaded { id } => "Model not downloaded: "@ + id@,
        ModelError::LoadFailed { detail } => "Failed to load whisper model: "@ + detail@,
    }
}

impl ModelError {
    /// Renders the user-facing message.
    pub fn message(&self) -> (r: String)
        ensures
            r@ == model_error_message(*self),
    {
        match self {
            ModelError::UnknownModel { id } => {
                let mut s = String::from_str("Unknown model: ");
                s.append(id.as_str());
                s
            },
            ModelError::NotDownloaded { id } => {
                let mut s = String::from_str("Model not downloaded: ");
                s.append(id.as_str());
                s
            },
            ModelError::LoadFailed { detail } => {
                let mut s = String::from_str("Failed to load whisper model: ");
                s.append(detail.as_str());
                s
            },
        }
    }
}

} // verus!
