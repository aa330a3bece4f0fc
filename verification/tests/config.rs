use pttkey::config::{
    mode_label, parse_mode, parse_sound_setting, parse_startup_state, persisted_sound_label,
    sound_label, sound_setting_value, startup_state_label, str_eq, ConfigError, Mode, SoundChoice,
    SoundSettingValue, StartupState,
};

#[test]
fn mode_words() {
    assert_eq!(mode_label(Mode::Volume), "volume");
    assert_eq!(mode_label(Mode::Mute), "mute");
    assert_eq!(parse_mode("volume").unwrap(), Mode::Volume);
    assert_eq!(parse_mode("mute").unwrap(), Mode::Mute);
}

#[test]
fn unknown_mode_is_rejected_with_its_text() {
    match parse_mode("Mute") {
        Err(ConfigError::InvalidMode(text)) => assert_eq!(text, "Mute"),
        other => panic!("unexpected: {:?}", other),
    }
    let message = parse_mode("loud").unwrap_err().message();
    assert_eq!(message, "Invalid --mode 'loud'. Use 'volume' or 'mute'.");
}

#[test]
fn startup_state_words() {
    assert_eq!(startup_state_label(StartupState::Muted), "muted");
    assert_eq!(startup_state_label(StartupState::Unmuted), "unmuted");
    assert_eq!(parse_startup_state("muted").unwrap(), StartupState::Muted);
    assert_eq!(parse_startup_state("unmuted").unwrap(), StartupState::Unmuted);
}

#[test]
fn unknown_startup_state_is_rejected_with_its_text() {
    match parse_startup_state("") {
        Err(ConfigError::InvalidStartupState(text)) => assert_eq!(text, ""),
        other => panic!("unexpected: {:?}", other),
    }
    let message = parse_startup_state("on").unwrap_err().message();
    assert_eq!(message, "Invalid --startup-state 'on'. Use 'muted' or 'unmuted'.");
}

#[test]
fn sound_choice_is_stored_and_read_back() {
    assert!(sound_setting_value(&SoundChoice::Default).is_none());
    assert!(matches!(
        sound_setting_value(&SoundChoice::Disabled),
        Some(SoundSettingValue::Bool(false))
    ));
    match sound_setting_value(&SoundChoice::File("/tmp/on.wav".to_string())) {
        Some(SoundSettingValue::String(path)) => assert_eq!(path, "/tmp/on.wav"),
        other => panic!("unexpected: {:?}", other),
    }
    assert!(matches!(parse_sound_setting(None), SoundChoice::Default));
    assert!(matches!(
        parse_sound_setting(Some(SoundSettingValue::Bool(true))),
        SoundChoice::Default
    ));
    assert!(matches!(
        parse_sound_setting(Some(SoundSettingValue::Bool(false))),
        SoundChoice::Disabled
    ));
    match parse_sound_setting(Some(SoundSettingValue::String("a.ogg".to_string()))) {
        SoundChoice::File(path) => assert_eq!(path, "a.ogg"),
        other => panic!("unexpected: {:?}", other),
    }
}

#[test]
fn sound_labels() {
    assert_eq!(sound_label(&SoundChoice::Default), "default");
    assert_eq!(sound_label(&SoundChoice::Disabled), "disabled");
    assert_eq!(sound_label(&SoundChoice::File("x.wav".to_string())), "x.wav");
    assert_eq!(persisted_sound_label(&None), "default");
    assert_eq!(persisted_sound_label(&Some(SoundSettingValue::Bool(true))), "default");
    assert_eq!(persisted_sound_label(&Some(SoundSettingValue::Bool(false))), "disabled");
    assert_eq!(
        persisted_sound_label(&Some(SoundSettingValue::String("y.mp3".to_string()))),
        "y.mp3"
    );
}

#[test]
fn error_messages() {
    assert_eq!(
        ConfigError::UnknownKey("KEY_NOPE".to_string()).message(),
        "Unknown key 'KEY_NOPE'. Use a numeric key code or a known name like BTN_EXTRA/KEY_F9."
    );
    assert_eq!(
        ConfigError::MissingSoundOn("/a".to_string()).message(),
        "Sound on file does not exist: /a"
    );
    assert_eq!(
        ConfigError::MissingSoundOff("/b".to_string()).message(),
        "Sound off file does not exist: /b"
    );
    assert_eq!(ConfigError::MissingValue("--key".to_string()).message(), "missing value for --key");
    assert_eq!(
        ConfigError::InvalidLevel("--on-level".to_string(), "x".to_string()).message(),
        "invalid --on-level 'x'"
    );
    assert_eq!(
        ConfigError::UnknownArgument("--nope".to_string()).message(),
        "Unknown argument '--nope'. Use --help."
    );
}

#[test]
fn text_equality() {
    assert!(str_eq("", ""));
    assert!(str_eq("abc", "abc"));
    assert!(!str_eq("abc", "abd"));
    assert!(!str_eq("abc", "ab"));
}
