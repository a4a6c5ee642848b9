use dictation::errors::{DeviceError, InferenceError, ModelError, ResampleError};
use dictation::models::{
    advance_progress, catalog_lookup, list_models, model_catalog, model_path, models_dir,
    plan_activation, plan_download, progress_total, settings_path,
};
use dictation::resample::{needs_resample, resample_passthrough, WHISPER_SAMPLE_RATE};

#[test]
fn catalog_has_the_four_tiers_in_order() {
    let cat = model_catalog();
    assert_eq!(cat.len(), 4);
    assert_eq!(cat[0].id, "tiny");
    assert_eq!(cat[1].id, "base");
    assert_eq!(cat[2].id, "small");
    assert_eq!(cat[3].id, "medium");
    assert_eq!(cat[0].filename, "ggml-tiny.bin");
    assert_eq!(cat[3].filename, "ggml-medium.bin");
    assert_eq!(cat[0].size_bytes, 75_000_000);
    assert_eq!(cat[3].size_bytes, 1_530_000_000);
    assert_eq!(
        cat[1].url,
        "https://huggingface.co/ggerganov/whisper.cpp/resolve/main/ggml-base.bin"
    );
    assert_eq!(cat[2].description, "Small (~466MB) - Better accuracy");
}

#[test]
fn paths_derive_from_the_data_root() {
    assert_eq!(models_dir("/data/app"), "/data/app/models");
    assert_eq!(settings_path("/data/app"), "/data/app/whisper-settings.json");
}

#[test]
fn model_path_resolves_known_ids_only() {
    assert_eq!(
        model_path("/data/app", "tiny"),
        Some("/data/app/models/ggml-tiny.bin".to_string())
    );
    assert_eq!(
        model_path("/data/app", "medium"),
        Some("/data/app/models/ggml-medium.bin".to_string())
    );
    assert_eq!(model_path("/data/app", "huge"), None);
    assert_eq!(model_path("/data/app", ""), None);
}

#[test]
fn lookup_gives_catalog_positions() {
    assert_eq!(catalog_lookup("tiny"), Some(0));
    assert_eq!(catalog_lookup("base"), Some(1));
    assert_eq!(catalog_lookup("small"), Some(2));
    assert_eq!(catalog_lookup("medium"), Some(3));
    assert_eq!(catalog_lookup("Tiny"), None);
}

#[test]
fn list_models_reflects_presence_exactly() {
    let all_present = vec![true, true, true, true];
    let statuses = list_models("/root", &all_present);
    assert_eq!(statuses.len(), 4);
    for st in &statuses {
        assert!(st.downloaded);
        assert!(st.path.is_some());
    }
    assert_eq!(
        statuses[0].path.as_ref().unwrap(),
        "/root/models/ggml-tiny.bin"
    );

    // Deleting one model's file makes exactly that entry reappear as not
    // downloaded on the next listing.
    let after_delete = vec![true, false, true, true];
    let statuses2 = list_models("/root", &after_delete);
    assert!(statuses2[0].downloaded);
    assert!(!statuses2[1].downloaded);
    assert!(statuses2[1].path.is_none());
    assert!(statuses2[2].downloaded);
    assert_eq!(statuses2[1].info.id, "base");
}

#[test]
fn unknown_download_fails_before_anything_is_created() {
    match plan_download("/root", "nope") {
        Err(ModelError::UnknownModel { id }) => assert_eq!(id, "nope"),
        _ => panic!("expected UnknownModel"),
    }
}

#[test]
fn download_plan_streams_to_a_distinct_temporary_name() {
    let plan = plan_download("/root", "base").expect("known id");
    assert_eq!(plan.final_path, "/root/models/ggml-base.bin");
    assert_eq!(plan.tmp_path, "/root/models/ggml-base.bin.tmp");
    assert_ne!(plan.tmp_path, plan.final_path);
    assert_eq!(
        plan.url,
        "https://huggingface.co/ggerganov/whisper.cpp/resolve/main/ggml-base.bin"
    );
    assert_eq!(plan.expected_size, 142_000_000);
}

#[test]
fn progress_total_falls_back_to_declared_size() {
    assert_eq!(progress_total(Some(1000), 75_000_000), 1000);
    assert_eq!(progress_total(None, 75_000_000), 75_000_000);
    assert_eq!(advance_progress(10, 32), 42);
}

#[test]
fn activation_needs_a_known_downloaded_model() {
    match plan_activation("/root", "huge", true) {
        Err(ModelError::UnknownModel { id }) => assert_eq!(id, "huge"),
        _ => panic!("expected UnknownModel"),
    }
    match plan_activation("/root", "small", false) {
        Err(ModelError::NotDownloaded { id }) => assert_eq!(id, "small"),
        _ => panic!("expected NotDownloaded"),
    }
    assert_eq!(
        plan_activation("/root", "small", true).expect("ready"),
        "/root/models/ggml-small.bin"
    );
}

#[test]
fn model_error_messages() {
    let e = ModelError::UnknownModel { id: "xl".to_string() };
    assert_eq!(e.message(), "Unknown model: xl");
    let e2 = ModelError::NotDownloaded { id: "base".to_string() };
    assert_eq!(e2.message(), "Model not downloaded: base");
}

#[test]
fn equal_rates_pass_through_unchanged() {
    assert_eq!(WHISPER_SAMPLE_RATE, 16000);
    assert!(!needs_resample(16000));
    assert!(needs_resample(44100));
    let x = vec![1, 2, 3];
    assert_eq!(resample_passthrough(x.clone(), 44100, 44100), Some(x));
    assert_eq!(resample_passthrough(vec![1, 2, 3], 44100, 16000), None);
}

#[test]
fn host_side_error_messages_are_fixed() {
    let e = ModelError::LoadFailed { detail: "bad magic".to_string() };
    assert_eq!(e.message(), "Failed to load whisper model: bad magic");
    let d = DeviceError::DeviceNotFound { name: "USB Mic".to_string() };
    assert_eq!(d.message(), "Device 'USB Mic' not found");
    assert_eq!(
        DeviceError::PermissionDenied.message(),
        "Microphone permission denied. Please grant access in the system privacy settings."
    );
    let c = DeviceError::ConfigError { detail: "no formats".to_string() };
    assert_eq!(c.message(), "Failed to get input config: no formats");
    let r = ResampleError::InitFailed { detail: "bad ratio".to_string() };
    assert_eq!(r.message(), "Failed to create resampler: bad ratio");
    let r2 = ResampleError::Failed { detail: "short buffer".to_string() };
    assert_eq!(r2.message(), "Resampling failed: short buffer");
    let i = InferenceError::InferenceFailed { detail: "decode error".to_string() };
    assert_eq!(i.message(), "Transcription failed: decode error");
}
