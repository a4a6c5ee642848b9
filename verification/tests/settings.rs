use dictation::settings::{
    settings_from_json, settings_to_json, WhisperSettings, DEFAULT_LANGUAGE, DEFAULT_SHORTCUT,
};

fn assert_same(a: &WhisperSettings, b: &WhisperSettings) {
    assert_eq!(a.active_model, b.active_model);
    assert_eq!(a.language, b.language);
    assert_eq!(a.shortcut, b.shortcut);
    assert_eq!(a.selected_device, b.selected_device);
}

#[test]
fn defaults_are_documented() {
    let d = WhisperSettings::default();
    assert_eq!(d.active_model, None);
    assert_eq!(d.language, DEFAULT_LANGUAGE);
    assert_eq!(d.language, "auto");
    assert_eq!(d.shortcut, DEFAULT_SHORTCUT);
    assert_eq!(d.shortcut, "Alt+Space");
    assert_eq!(d.selected_device, None);
}

#[test]
fn canonical_document_is_exact() {
    let d = WhisperSettings::default();
    assert_eq!(
        settings_to_json(&d),
        "{\"active_model\":null,\"language\":\"auto\",\"shortcut\":\"Alt+Space\",\"selected_device\":null}"
    );
}

#[test]
fn round_trip_of_defaults() {
    let d = WhisperSettings::default();
    let loaded = settings_from_json(&settings_to_json(&d));
    assert_same(&d, &loaded);
}

#[test]
fn round_trip_of_full_value() {
    let s = WhisperSettings {
        active_model: Some("base".to_string()),
        language: "pt".to_string(),
        shortcut: "Ctrl+Shift+D".to_string(),
        selected_device: Some("USB Microphone (2)".to_string()),
    };
    let loaded = settings_from_json(&settings_to_json(&s));
    assert_same(&s, &loaded);
}

#[test]
fn round_trip_escapes_quotes_and_backslashes() {
    let s = WhisperSettings {
        active_model: None,
        language: "auto".to_string(),
        shortcut: "we\"ird\\acc\\\"el".to_string(),
        selected_device: Some("mic \\ \"primary\"".to_string()),
    };
    let text = settings_to_json(&s);
    let loaded = settings_from_json(&text);
    assert_same(&s, &loaded);
}

#[test]
fn missing_file_text_yields_defaults() {
    let loaded = settings_from_json("");
    assert_same(&WhisperSettings::default(), &loaded);
}

#[test]
fn corrupt_text_yields_defaults() {
    for bad in [
        "not json at all",
        "{\"language\":12}",
        "{\"language\":\"pt\"",
        "[1,2,3]",
        "{\"language\":null}",
        "{\"shortcut\":null}",
        "{} trailing",
    ] {
        let loaded = settings_from_json(bad);
        assert_same(&WhisperSettings::default(), &loaded);
    }
}

#[test]
fn missing_members_take_their_defaults() {
    let loaded = settings_from_json("{\"language\":\"pt\"}");
    assert_eq!(loaded.language, "pt");
    assert_eq!(loaded.shortcut, "Alt+Space");
    assert_eq!(loaded.active_model, None);
    assert_eq!(loaded.selected_device, None);
}

#[test]
fn member_order_does_not_matter() {
    let text = "{\"selected_device\":\"Mic\",\"shortcut\":\"Alt+D\",\"active_model\":\"tiny\",\"language\":\"en\"}";
    let loaded = settings_from_json(text);
    assert_eq!(loaded.active_model, Some("tiny".to_string()));
    assert_eq!(loaded.language, "en");
    assert_eq!(loaded.shortcut, "Alt+D");
    assert_eq!(loaded.selected_device, Some("Mic".to_string()));
}

#[test]
fn whitespace_is_tolerated() {
    let text = " { \"language\" : \"en\" , \"active_model\" : null } ";
    let loaded = settings_from_json(text);
    assert_eq!(loaded.language, "en");
    assert_eq!(loaded.active_model, None);
    assert_eq!(loaded.shortcut, "Alt+Space");
}

#[test]
fn null_clears_the_optional_members() {
    let text = "{\"active_model\":null,\"selected_device\":null}";
    let loaded = settings_from_json(text);
    assert_eq!(loaded.active_model, None);
    assert_eq!(loaded.selected_device, None);
    assert_eq!(loaded.language, "auto");
}

#[test]
fn unknown_members_are_ignored() {
    let text = "{\"theme\":\"dark\",\"language\":\"en\"}";
    let loaded = settings_from_json(text);
    assert_eq!(loaded.language, "en");
}

#[test]
fn later_duplicate_members_win() {
    let text = "{\"language\":\"en\",\"language\":\"pt\"}";
    let loaded = settings_from_json(text);
    assert_eq!(loaded.language, "pt");
}

#[test]
fn empty_object_is_all_defaults() {
    let loaded = settings_from_json("{}");
    assert_same(&WhisperSettings::default(), &loaded);
}
