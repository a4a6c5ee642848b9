use dictation::sample::{
    is_too_quiet, isqrt_u64, rms_micro, sample_from_i16, sample_from_u16, to_mono, SAMPLE_BOUND,
    SAMPLE_SCALE,
};

#[test]
fn scale_is_lcm_of_encodings() {
    assert_eq!(SAMPLE_SCALE, 32767 * 65535);
    assert_eq!(SAMPLE_BOUND, 32768 * 65535);
}

#[test]
fn i16_full_scale_maps_exactly() {
    assert_eq!(sample_from_i16(32767), SAMPLE_SCALE);
    assert_eq!(sample_from_i16(-32768), -SAMPLE_BOUND);
    assert_eq!(sample_from_i16(0), 0);
    assert_eq!(sample_from_i16(1), 65535);
    assert_eq!(sample_from_i16(-1), -65535);
}

#[test]
fn u16_midpoint_is_silence() {
    assert_eq!(sample_from_u16(65535), SAMPLE_SCALE);
    assert_eq!(sample_from_u16(0), -SAMPLE_SCALE);
    // The two values around the midpoint straddle zero symmetrically.
    assert_eq!(sample_from_u16(32767), -32767);
    assert_eq!(sample_from_u16(32768), 32767);
}

#[test]
fn mono_passthrough_keeps_every_sample() {
    let samples = vec![5, -7, 100, 0, -2];
    let out = to_mono(&samples, 1);
    assert_eq!(out, samples);
}

#[test]
fn stereo_frames_average_exactly() {
    let samples = vec![10, 20, -10, -20, 7, 8];
    let out = to_mono(&samples, 2);
    assert_eq!(out, vec![15, -15, 7]);
}

#[test]
fn three_channel_frames_average_exactly() {
    let samples = vec![3, 6, 9, -3, -6, -9];
    let out = to_mono(&samples, 3);
    assert_eq!(out, vec![6, -6]);
}

#[test]
fn mono_output_length_is_frame_count() {
    // A trailing partial frame is dropped.
    let samples = vec![1, 2, 3, 4, 5];
    let out = to_mono(&samples, 2);
    assert_eq!(out.len(), 2);
    let out3 = to_mono(&samples, 3);
    assert_eq!(out3.len(), 1);
}

#[test]
fn negative_means_round_toward_negative_infinity() {
    // (-3 + 0) / 2 rounds down to -2 in the exact integer semantics.
    let out = to_mono(&vec![-3, 0], 2);
    assert_eq!(out, vec![-2]);
}

#[test]
fn silence_is_too_quiet() {
    let zeros = vec![0i32; 16000];
    assert!(is_too_quiet(&zeros));
}

#[test]
fn quietness_threshold_is_exact() {
    // One one-thousandth of full scale is 2147385.345 fixed-point units:
    // a constant just below it is quiet, one just above is not.
    let quiet = vec![2147385i32; 1000];
    assert!(is_too_quiet(&quiet));
    let loud = vec![2147386i32; 1000];
    assert!(!is_too_quiet(&loud));
}

#[test]
fn tenth_amplitude_sine_passes() {
    let mut samples = Vec::new();
    for i in 0..16000 {
        let t = i as f64 / 16000.0;
        let v = 0.1 * (2.0 * std::f64::consts::PI * 440.0 * t).sin();
        samples.push((v * SAMPLE_SCALE as f64) as i32);
    }
    assert!(!is_too_quiet(&samples));
    // A 0.1-amplitude sine has RMS near 0.0707 of full scale.
    let measured = rms_micro(&samples);
    assert!(measured > 60000 && measured < 80000, "rms_micro = {}", measured);
}

#[test]
fn isqrt_exact_values() {
    assert_eq!(isqrt_u64(0), 0);
    assert_eq!(isqrt_u64(1), 1);
    assert_eq!(isqrt_u64(3), 1);
    assert_eq!(isqrt_u64(4), 2);
    assert_eq!(isqrt_u64(99), 9);
    assert_eq!(isqrt_u64(100), 10);
    assert_eq!(isqrt_u64(u64::MAX), 4294967295);
}

#[test]
fn rms_of_full_scale_constant_is_one_million() {
    let samples = vec![SAMPLE_SCALE; 100];
    assert_eq!(rms_micro(&samples), 1000000);
}
