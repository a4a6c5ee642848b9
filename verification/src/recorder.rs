//! The audio recorder: a two-state machine (idle / capturing) over a session
//! buffer of fixed-point mono samples.
//!
//! The host layer owns the native capture stream and forwards each delivered
//! chunk here; this module does everything that can be stated exactly:
//! normalizing integer encodings, mixing frames down to mono, appending to
//! the session buffer, marking liveness, and running the three-stage
//! validation on stop (liveness, non-emptiness, loudness) followed by the
//! rate decision.

use crate::errors::CaptureError;
use crate::resample::WHISPER_SAMPLE_RATE;
use crate::sample::{
    all_valid, mono_mix, rms_micro, rms_micro_spec, sample_from_i16, sample_from_u16, to_mono,
    too_quiet, is_too_quiet, valid_sample,
};
use vstd::prelude::*;

verus! {

/// A validated capture, ready for transcription or for rate conversion.
pub enum CaptureOutcome {
    /// The buffer is already at the engine's rate and passes through
    /// unchanged.
    Ready(Vec<i32>),
    /// The buffer must be converted from `from_rate` to the engine's rate.
    NeedsResample { samples: Vec<i32>, from_rate: u32 },
}

/// Owns one capture session: the growing mono buffer, the device
/// configuration it was opened with, and the liveness mark that records
/// whether any chunk was ever delivered.
pub struct AudioRecorder {
    /// Mono session buffer, appended by the capture callback path.
    pub buffer: Vec<i32>,
    /// Whether a capture stream is currently active.
    pub capturing: bool,
    /// Native sample rate of the bound device, in Hz.
    pub device_sample_rate: u32,
    /// Native channel count of the bound device.
    pub device_channels: u16,
    /// Set as soon as the first chunk arrives; never cleared by a stop, so
    /// "driver delivered nothing" stays distinguishable from "short buffer".
    pub audio_received: bool,
    /// The device this recorder was bound to, when one was chosen
    /// explicitly.
    pub selected_device_name: Option<String>,
}

impl AudioRecorder {
    /// The recorder's internal invariant: a usable channel count and a
    /// buffer of in-range samples.
    pub open spec fn wf(&self) -> bool {
        1 <= self.device_channels && all_valid(self.buffer@)
    }

    /// Builds an idle recorder for a device whose native configuration the
    /// host layer has already resolved.
    pub fn new(selected_device_name: Option<String>, sample_rate: u32, channels: u16) -> (r:
        AudioRecorder)
        requires
            1 <= channels,
        ensures
            r.wf(),
            !r.capturing,
            !r.audio_received,
            r.buffer@ == Seq::<i32>::empty(),
            r.device_sample_rate == sample_rate,
            r.device_channels == channels,
            r.selected_device_name == selected_device_name,
    {
        AudioRecorder {
            buffer: Vec::new(),
            capturing: false,
            device_sample_rate: sample_rate,
            device_channels: channels,
            audio_received: false,
            selected_device_name,
        }
    }

    /// Enters the capturing state with a freshly resolved device
    /// configuration, clearing any stale buffer. A recorder already
    /// capturing is left untouched, so a second start is a no-op.
    pub fn start(&mut self, sample_rate: u32, channels: u16)
        requires
            old(self).wf(),
            1 <= channels,
        ensures
            final(self).wf(),
            old(self).capturing ==> *final(self) == *old(self),
            !old(self).capturing ==> {
                &&& final(self).capturing
                &&& final(self).buffer@ == Seq::<i32>::empty()
                &&& final(self).device_sample_rate == sample_rate
                &&& final(self).device_channels == channels
                &&& final(self).audio_received == old(self).audio_received
                &&& final(self).selected_device_name == old(self).selected_device_name
            },
    {
        if self.capturing {
            return ;
        }
        self.device_sample_rate = sample_rate;
        self.device_channels = channels;
        self.buffer = Vec::new();
        self.capturing = true;
    }

    /// The callback path for a chunk already in fixed-point form: mixes the
    /// interleaved frames down to mono, appends them to the session buffer,
    /// and marks liveness.
    pub fn push_chunk(&mut self, interleaved: &Vec<i32>)
        requires
            old(self).wf(),
            old(self).capturing,
            all_valid(interleaved@),
        ensures
            final(self).wf(),
            final(self).buffer@ == old(self).buffer@ + mono_mix(
                interleaved@,
                old(self).device_channels as int,
            ),
            final(self).audio_received,
            final(self).capturing == old(self).capturing,
            final(self).device_sample_rate == old(self).device_sample_rate,
            final(self).device_channels == old(self).device_channels,
            final(self).selected_device_name == old(self).selected_device_name,
    {
        let mut mono = to_mono(interleaved, self.device_channels as usize);
        self.buffer.append(&mut mono);
        self.audio_received = true;
    }

    /// The callback path for a signed 16-bit chunk: normalizes each sample
    /// exactly, then proceeds as for a fixed-point chunk.
    pub fn push_chunk_i16(&mut self, data: &Vec<i16>)
        requires
            old(self).wf(),
            old(self).capturing,
        ensures
            final(self).wf(),
            final(self).buffer@ == old(self).buffer@ + mono_mix(
                Seq::new(data@.len(), |i: int| (data@[i] as int * 65535) as i32),
                old(self).device_channels as int,
            ),
            final(self).audio_received,
            final(self).capturing == old(self).capturing,
            final(self).device_sample_rate == old(self).device_sample_rate,
            final(self).device_channels == old(self).device_channels,
            final(self).selected_device_name == old(self).selected_device_name,
    {
        let mut fixed: Vec<i32> = Vec::new();
        let mut i: usize = 0;
        while i < data.len()
            invariant
                i <= data@.len(),
                fixed@.len() == i,
                forall|k: int|
                    0 <= k < i ==> fixed@[k] as int == data@[k] as int * 65535 && valid_sample(
                        #[trigger] fixed@[k],
                    ),
            decreases data@.len() - i,
        {
            let s = sample_from_i16(data[i]);
            fixed.push(s);
            i = i + 1;
        }
        proof {
            assert(fixed@ =~= Seq::new(data@.len(), |i: int| (data@[i] as int * 65535) as i32));
        }
        self.push_chunk(&fixed);
    }

    /// The callback path for an unsigned 16-bit chunk: normalizes each
    /// sample exactly, then proceeds as for a fixed-point chunk.
    pub fn push_chunk_u16(&mut self, data: &Vec<u16>)
        requires
            old(self).wf(),
            old(self).capturing,
        ensures
            final(self).wf(),
            final(self).buffer@ == old(self).buffer@ + mono_mix(
                Seq::new(data@.len(), |i: int| ((2 * data@[i] as int - 65535) * 32767) as i32),
                old(self).device_channels as int,
            ),
            final(self).audio_received,
            final(self).capturing == old(self).capturing,
            final(self).device_sample_rate == old(self).device_sample_rate,
            final(self).device_channels == old(self).device_channels,
            final(self).selected_device_name == old(self).selected_device_name,
    {
        let mut fixed: Vec<i32> = Vec::new();
        let mut i: usize = 0;
        while i < data.len()
            invariant
                i <= data@.len(),
                fixed@.len() == i,
                forall|k: int|
                    0 <= k < i ==> fixed@[k] as int == (2 * data@[k] as int - 65535) * 32767
                        && valid_sample(#[trigger] fixed@[k]),
            decreases data@.len() - i,
        {
            let s = sample_from_u16(data[i]);
            fixed.push(s);
            i = i + 1;
        }
        proof {
            assert(fixed@ =~= Seq::new(
                data@.len(),
                |i: int| ((2 * data@[i] as int - 65535) * 32767) as i32,
            ));
        }
        self.push_chunk(&fixed);
    }

    /// Leaves the capturing state without validating or returning anything:
    /// the buffer is discarded. Safe to call in any state.
    pub fn cancel(&mut self)
        requires
            old(self).wf(),
        ensures
            final(self).wf(),
            !final(self).capturing,
            final(self).buffer@ == Seq::<i32>::empty(),
            final(self).audio_received == old(self).audio_received,
            final(self).device_sample_rate == old(self).device_sample_rate,
            final(self).device_channels == old(self).device_channels,
            final(self).selected_device_name == old(self).selected_device_name,
    {
        self.capturing = false;
        self.buffer = Vec::new();
    }

    /// Tears the session down and validates the capture in three stages:
    /// first liveness (was any chunk ever delivered), then non-emptiness,
    /// then loudness. A passing buffer is drained out of the recorder,
    /// unchanged when it is already at the engine's rate and marked for
    /// conversion otherwise.
    pub fn stop(&mut self) -> (r: Result<CaptureOutcome, CaptureError>)
        requires
            old(self).wf(),
        ensures
            final(self).wf(),
            !final(self).capturing,
            final(self).buffer@ == Seq::<i32>::empty(),
            final(self).audio_received == old(self).audio_received,
            final(self).device_sample_rate == old(self).device_sample_rate,
            final(self).device_channels == old(self).device_channels,
            final(self).selected_device_name == old(self).selected_device_name,
            !old(self).audio_received ==> r == Result::<CaptureOutcome, CaptureError>::Err(
                CaptureError::NoAudioReceived,
            ),
            old(self).audio_received && old(self).buffer@.len() == 0 ==> r == Result::<
                CaptureOutcome,
                CaptureError,
            >::Err(CaptureError::EmptyCapture),
            old(self).audio_received && old(self).buffer@.len() > 0 && too_quiet(old(self).buffer@)
                ==> r == Result::<CaptureOutcome, CaptureError>::Err(
                CaptureError::TooQuiet { rms_micro: rms_micro_spec(old(self).buffer@) as u64 },
            ),
            old(self).audio_received && old(self).buffer@.len() > 0 && !too_quiet(old(self).buffer@)
                && old(self).device_sample_rate == WHISPER_SAMPLE_RATE ==> (r matches Ok(
            CaptureOutcome::Ready(samples)) && samples@ == old(self).buffer@),
            old(self).audio_received && old(self).buffer@.len() > 0 && !too_quiet(old(self).buffer@)
                && old(self).device_sample_rate != WHISPER_SAMPLE_RATE ==> (r matches Ok(
            CaptureOutcome::NeedsResample { samples, from_rate }) && samples@ == old(self).buffer@
                && from_rate == old(self).device_sample_rate),
    {
        self.capturing = false;
        let mut raw: Vec<i32> = Vec::new();
        core::mem::swap(&mut raw, &mut self.buffer);
        if !self.audio_received {
            return Err(CaptureError::NoAudioReceived);
        }
        if raw.len() == 0 {
            return Err(CaptureError::EmptyCapture);
        }
        if is_too_quiet(&raw) {
            let measured = rms_micro(&raw);
            return Err(CaptureError::TooQuiet { rms_micro: measured });
        }
        if self.device_sample_rate == WHISPER_SAMPLE_RATE {
            Ok(CaptureOutcome::Ready(raw))
        } else {
            Ok(CaptureOutcome::NeedsResample { samples: raw, from_rate: self.device_sample_rate })
        }
    }
}

} // verus!
