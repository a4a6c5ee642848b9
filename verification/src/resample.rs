//! Sample-rate conversion decisions.
//!
//! The recognition engine expects audio at a fixed rate. Captured audio
//! arrives at whatever rate the input device runs at; when the two rates
//! already agree the buffer must pass through unchanged, and only otherwise
//! is the band-limited interpolation of the host layer invoked.

use vstd::prelude::*;

verus! {

/// Sample rate, in Hz, that the recognition engine expects.
pub const WHISPER_SAMPLE_RATE: u32 = 16000;

/// True when a capture at `from_rate` must be rate-converted before
/// transcription.
pub fn needs_resample(from_rate: u32) -> (r: bool)
    ensures
        r <==> from_rate != WHISPER_SAMPLE_RATE,
{
    from_rate != WHISPER_SAMPLE_RATE
}

/// The no-conversion fast path: converting between equal rates is the
/// identity, so a buffer whose source rate equals the target rate is
/// returned unchanged and no interpolation runs. A differing pair of rates
/// yields `None`, telling the caller that real conversion is required.
pub fn resample_passthrough(samples: Vec<i32>, from_rate: u32, to_rate: u32) -> (r: Option<
    Vec<i32>,
>)
    ensures
        from_rate == to_rate ==> r == Some(samples),
        from_rate != to_rate ==> r is None,
{
    if from_rate == to_rate {
        Some(samples)
    } else {
        None
    }
}

} // verus!
