use dictation::errors::CaptureError;
use dictation::recorder::{AudioRecorder, CaptureOutcome};
use dictation::sample::SAMPLE_SCALE;

fn loud_chunk(len: usize) -> Vec<i32> {
    // A constant tenth of full scale: comfortably above the threshold.
    vec![SAMPLE_SCALE / 10; len]
}

#[test]
fn stop_without_any_audio_is_no_audio_received() {
    // The liveness mark was never set: the driver delivered nothing.
    let mut rec = AudioRecorder::new(None, 16000, 1);
    rec.start(16000, 1);
    let r = rec.stop();
    assert!(matches!(r, Err(CaptureError::NoAudioReceived)));
}

#[test]
fn stop_with_liveness_but_empty_buffer_is_empty_capture() {
    // An empty chunk sets the liveness mark without adding samples,
    // so the two failure modes stay distinguishable.
    let mut rec = AudioRecorder::new(None, 16000, 1);
    rec.start(16000, 1);
    rec.push_chunk(&Vec::new());
    let r = rec.stop();
    assert!(matches!(r, Err(CaptureError::EmptyCapture)));
}

#[test]
fn stop_on_silence_is_too_quiet() {
    let mut rec = AudioRecorder::new(None, 16000, 1);
    rec.start(16000, 1);
    rec.push_chunk(&vec![0i32; 8000]);
    let r = rec.stop();
    match r {
        Err(CaptureError::TooQuiet { rms_micro }) => assert_eq!(rms_micro, 0),
        other => panic!("expected TooQuiet, got {}", err_name(&other)),
    }
}

#[test]
fn stop_at_engine_rate_returns_buffer_unchanged() {
    let mut rec = AudioRecorder::new(None, 16000, 1);
    rec.start(16000, 1);
    let chunk = loud_chunk(4000);
    rec.push_chunk(&chunk);
    match rec.stop() {
        Ok(CaptureOutcome::Ready(samples)) => assert_eq!(samples, chunk),
        other => panic!("expected Ready, got {:?}", err_name(&other)),
    }
}

#[test]
fn stop_at_other_rate_asks_for_resampling() {
    let mut rec = AudioRecorder::new(None, 44100, 1);
    rec.start(44100, 1);
    let chunk = loud_chunk(4410);
    rec.push_chunk(&chunk);
    match rec.stop() {
        Ok(CaptureOutcome::NeedsResample { samples, from_rate }) => {
            assert_eq!(samples, chunk);
            assert_eq!(from_rate, 44100);
        },
        other => panic!("expected NeedsResample, got {:?}", err_name(&other)),
    }
}

#[test]
fn stereo_chunks_are_mixed_to_mono() {
    let mut rec = AudioRecorder::new(None, 16000, 2);
    rec.start(16000, 2);
    rec.push_chunk(&vec![1000000, 2000000, -1000000, -2000000]);
    rec.push_chunk(&vec![600000, 800000]);
    assert_eq!(rec.buffer, vec![1500000, -1500000, 700000]);
}

#[test]
fn i16_chunks_are_normalized_and_mixed() {
    let mut rec = AudioRecorder::new(None, 16000, 2);
    rec.start(16000, 2);
    rec.push_chunk_i16(&vec![100i16, 200i16]);
    assert_eq!(rec.buffer, vec![150 * 65535]);
}

#[test]
fn u16_chunks_are_normalized_and_mixed() {
    let mut rec = AudioRecorder::new(None, 16000, 1);
    rec.start(16000, 1);
    rec.push_chunk_u16(&vec![65535u16, 0u16]);
    assert_eq!(rec.buffer, vec![SAMPLE_SCALE, -SAMPLE_SCALE]);
}

#[test]
fn second_begin_is_a_no_op() {
    let mut rec = AudioRecorder::new(None, 16000, 1);
    rec.start(16000, 1);
    rec.push_chunk(&loud_chunk(100));
    // A second start must not clear the running session's buffer.
    rec.start(48000, 2);
    assert_eq!(rec.buffer.len(), 100);
    assert_eq!(rec.device_sample_rate, 16000);
    assert_eq!(rec.device_channels, 1);
}

#[test]
fn begin_clears_stale_buffer_from_previous_session() {
    let mut rec = AudioRecorder::new(None, 16000, 1);
    rec.start(16000, 1);
    rec.push_chunk(&loud_chunk(50));
    rec.cancel();
    rec.start(16000, 1);
    assert_eq!(rec.buffer.len(), 0);
    assert!(rec.capturing);
}

#[test]
fn too_quiet_message_carries_measurement() {
    let e = CaptureError::TooQuiet { rms_micro: 42 };
    assert_eq!(
        e.message(),
        "Audio too quiet (RMS micro: 42). Speak louder or check microphone settings."
    );
}

#[test]
fn capture_error_messages_are_distinct() {
    let a = CaptureError::NoAudioReceived.message();
    let b = CaptureError::EmptyCapture.message();
    assert_ne!(a, b);
    assert_eq!(a, "No audio data received. Check the microphone permission.");
    assert_eq!(b, "No audio captured. Recording too short or microphone not working.");
}

fn err_name(r: &Result<CaptureOutcome, CaptureError>) -> String {
    match r {
        Ok(CaptureOutcome::Ready(_)) => "Ready".to_string(),
        Ok(CaptureOutcome::NeedsResample { .. }) => "NeedsResample".to_string(),
        Err(e) => format!("{:?}", e),
    }
}
