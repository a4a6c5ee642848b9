//! Voice dictation pipeline.
//!
//! The library models the core of a desktop dictation feature: capturing
//! microphone audio into a session buffer, mixing it down to one channel,
//! validating signal quality, deciding when sample-rate conversion is needed,
//! managing downloadable recognition models and user settings, assembling
//! transcription output, and driving the recording session state machine.
//!
//! Audio samples are held as exact fixed-point integers so that every
//! numeric step of the pipeline is verified; the host layer converts the
//! native floating-point stream at the boundary.

pub mod controller;
pub mod devices;
pub mod errors;
pub mod hashing;
pub mod headings;
pub mod history;
pub mod ipc;
pub mod models;
pub mod recorder;
pub mod resample;
pub mod sample;
pub mod settings;
pub mod text;
pub mod transcript;
pub mod watcher;
