use dictation::devices::{list_audio_devices, AudioDevice};
use dictation::watcher::{is_model_file, should_emit, DEBOUNCE_MS};
use dictation::errors::DeviceError;
use dictation::ipc::{emit_response, ok_response, resolve_path_response, route_command, IpcAction, IpcCommand};

fn cmd(name: &str, path: Option<&str>) -> IpcCommand {
    IpcCommand { command: name.to_string(), path: path.map(|p| p.to_string()) }
}

#[test]
fn open_with_path_routes_to_the_file() {
    match route_command(cmd("open", Some("/notes/a.md"))) {
        IpcAction::OpenFile(p) => assert_eq!(p, "/notes/a.md"),
        _ => panic!("expected OpenFile"),
    }
}

#[test]
fn open_without_path_is_rejected_immediately() {
    match route_command(cmd("open", None)) {
        IpcAction::Respond(resp) => {
            assert!(!resp.success);
            assert_eq!(resp.error.as_deref(), Some("Missing 'path' field"));
        },
        _ => panic!("expected immediate rejection"),
    }
}

#[test]
fn ping_succeeds_with_no_side_effects() {
    match route_command(cmd("ping", None)) {
        IpcAction::Respond(resp) => {
            assert!(resp.success);
            assert!(resp.error.is_none());
        },
        _ => panic!("expected immediate success"),
    }
}

#[test]
fn show_asks_for_the_window() {
    assert!(matches!(route_command(cmd("show", None)), IpcAction::ShowWindow));
}

#[test]
fn unknown_commands_name_themselves() {
    match route_command(cmd("reboot", Some("/x"))) {
        IpcAction::Respond(resp) => {
            assert!(!resp.success);
            assert_eq!(resp.error.as_deref(), Some("Unknown command: reboot"));
        },
        _ => panic!("expected rejection"),
    }
}

#[test]
fn host_side_responses_carry_exact_messages() {
    let ok = ok_response();
    assert!(ok.success && ok.error.is_none());
    let bad_path = resolve_path_response(Some("No such file".to_string()));
    assert_eq!(bad_path.error.as_deref(), Some("Invalid path: No such file"));
    let bad_emit = emit_response(Some("closed".to_string()));
    assert_eq!(bad_emit.error.as_deref(), Some("Failed to emit event: closed"));
    assert!(emit_response(None).success);
}

#[test]
fn zero_devices_is_a_hard_error() {
    let r = list_audio_devices(Vec::new(), None);
    assert!(matches!(r, Err(DeviceError::NoDevices)));
    assert_eq!(DeviceError::NoDevices.message(), "No input devices found");
}

#[test]
fn the_default_device_is_marked() {
    let names = vec!["Mic A".to_string(), "Mic B".to_string(), "Mic A".to_string()];
    let devs: Vec<AudioDevice> =
        list_audio_devices(names, Some("Mic A".to_string())).expect("non-empty");
    assert_eq!(devs.len(), 3);
    assert!(devs[0].is_default);
    assert!(!devs[1].is_default);
    // Identity is name-equality only, so a duplicate name is marked too.
    assert!(devs[2].is_default);
    assert_eq!(devs[1].name, "Mic B");
}

#[test]
fn no_default_marks_nothing() {
    let names = vec!["Mic A".to_string()];
    let devs = list_audio_devices(names, None).expect("non-empty");
    assert!(!devs[0].is_default);
}

#[test]
fn watcher_debounce_and_model_filter() {
    assert_eq!(DEBOUNCE_MS, 500);
    assert!(!should_emit(0));
    assert!(!should_emit(499));
    assert!(should_emit(500));
    assert!(should_emit(10_000));
    assert!(is_model_file("ggml-tiny.bin"));
    assert!(!is_model_file("ggml-tiny.bin.tmp"));
    assert!(!is_model_file(".bin"));
    assert!(!is_model_file("notes.md"));
    assert!(is_model_file("a.bin"));
}
