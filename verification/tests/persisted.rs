use pttkey::config::{
    Config, ConfigError, Level, Mode, SoundChoice, SoundSettingValue, StartupState,
};
use pttkey::persisted::{
    check_sound_files, clone_text, config_from_persisted, persisted_from_config, stored_keys,
    PersistedConfig,
};

#[test]
fn defaults_of_a_fresh_installation() {
    let fresh = PersistedConfig::default();
    assert_eq!(fresh.keys, vec!["BTN_EXTRA"]);
    assert!(fresh.device_path.is_none());
    assert_eq!(fresh.mode, "volume");
    assert_eq!(fresh.on_level, Level { bits: 0x3F80_0000 });
    assert_eq!(fresh.off_level, Level { bits: 0 });
    assert!(fresh.sounds);
    assert!(fresh.sound_on.is_none());
    assert!(fresh.sound_off.is_none());
    assert_eq!(fresh.sound_volume, Level { bits: 0x3F80_0000 });
    assert_eq!(fresh.startup_state, "muted");
    assert!(!fresh.reverse);
    assert!(!fresh.suppress);
}

#[test]
fn the_defaults_make_a_snapshot() {
    let config = config_from_persisted(PersistedConfig::default()).unwrap();
    assert_eq!(config.keys, vec![0x114]);
    assert_eq!(config.mode, Mode::Volume);
    assert_eq!(config.startup_state, StartupState::Muted);
    assert!(matches!(config.sound_on, SoundChoice::Default));
    assert!(!config.list_keys && !config.list_devices && !config.print_config && !config.dry_run);
}

#[test]
fn an_empty_chord_stands_for_the_default_key() {
    let mut stored = PersistedConfig::default();
    stored.keys = vec![];
    assert_eq!(config_from_persisted(stored).unwrap().keys, vec![0x114]);
    assert_eq!(stored_keys(&vec![]).unwrap(), vec![0x114]);
}

#[test]
fn stored_values_are_carried_over() {
    let stored = PersistedConfig {
        keys: vec!["key_leftctrl".to_string(), "33".to_string()],
        device_path: Some("/dev/input/event7".to_string()),
        mode: "mute".to_string(),
        on_level: Level { bits: 0x3F00_0000 },
        off_level: Level { bits: 0x3DCC_CCCD },
        sounds: false,
        sound_on: Some(SoundSettingValue::Bool(false)),
        sound_off: Some(SoundSettingValue::String("/tmp/off.wav".to_string())),
        sound_volume: Level { bits: 0x3E80_0000 },
        startup_state: "unmuted".to_string(),
        reverse: true,
        suppress: true,
    };
    let config = config_from_persisted(stored).unwrap();
    assert_eq!(config.keys, vec![29, 33]);
    assert_eq!(config.device_path.as_deref(), Some("/dev/input/event7"));
    assert_eq!(config.mode, Mode::Mute);
    assert_eq!(config.on_level, Level { bits: 0x3F00_0000 });
    assert_eq!(config.off_level, Level { bits: 0x3DCC_CCCD });
    assert!(!config.sounds);
    assert!(matches!(config.sound_on, SoundChoice::Disabled));
    assert!(matches!(&config.sound_off, SoundChoice::File(p) if p == "/tmp/off.wav"));
    assert_eq!(config.sound_volume, Level { bits: 0x3E80_0000 });
    assert_eq!(config.startup_state, StartupState::Unmuted);
    assert!(config.reverse);
    assert!(config.suppress);
}

#[test]
fn the_first_fault_is_reported() {
    let mut stored = PersistedConfig::default();
    stored.keys = vec!["KEY_A".to_string(), "KEY_NOPE".to_string(), "ALSO_NOPE".to_string()];
    stored.mode = "loud".to_string();
    stored.startup_state = "on".to_string();
    assert!(matches!(
        config_from_persisted(stored.clone()),
        Err(ConfigError::UnknownKey(name)) if name == "KEY_NOPE"
    ));
    stored.keys = vec!["KEY_A".to_string()];
    assert!(matches!(
        config_from_persisted(stored.clone()),
        Err(ConfigError::InvalidMode(text)) if text == "loud"
    ));
    stored.mode = "mute".to_string();
    assert!(matches!(
        config_from_persisted(stored),
        Err(ConfigError::InvalidStartupState(text)) if text == "on"
    ));
}

#[test]
fn a_snapshot_is_stored_by_labels_and_words() {
    let config = Config {
        keys: vec![29, 33, 1000],
        device_path: Some("/dev/input/event7".to_string()),
        mode: Mode::Mute,
        on_level: Level { bits: 1 },
        off_level: Level { bits: 2 },
        sounds: true,
        sound_on: SoundChoice::Disabled,
        sound_off: SoundChoice::File("/tmp/off.wav".to_string()),
        sound_volume: Level { bits: 3 },
        list_keys: true,
        list_devices: false,
        print_config: true,
        dry_run: false,
        startup_state: StartupState::Unmuted,
        reverse: true,
        suppress: false,
    };
    let stored = persisted_from_config(&config);
    assert_eq!(stored.keys, vec!["KEY_LEFTCTRL", "KEY_F", "1000"]);
    assert_eq!(stored.device_path.as_deref(), Some("/dev/input/event7"));
    assert_eq!(stored.mode, "mute");
    assert_eq!(stored.on_level, Level { bits: 1 });
    assert_eq!(stored.off_level, Level { bits: 2 });
    assert!(matches!(stored.sound_on, Some(SoundSettingValue::Bool(false))));
    assert!(matches!(&stored.sound_off, Some(SoundSettingValue::String(p)) if p == "/tmp/off.wav"));
    assert_eq!(stored.sound_volume, Level { bits: 3 });
    assert_eq!(stored.startup_state, "unmuted");
    assert!(stored.reverse);
    assert!(!stored.suppress);
    // And back again.
    let again = config_from_persisted(stored).unwrap();
    assert_eq!(again.keys, vec![29, 33, 1000]);
    assert_eq!(again.mode, Mode::Mute);
    assert!(!again.list_keys);
}

#[test]
fn missing_sound_files_are_reported_on_first() {
    let mut config = config_from_persisted(PersistedConfig::default()).unwrap();
    assert!(check_sound_files(&config, false, false).is_ok());
    config.sound_on = SoundChoice::File("/a".to_string());
    config.sound_off = SoundChoice::File("/b".to_string());
    assert!(check_sound_files(&config, true, true).is_ok());
    assert!(matches!(
        check_sound_files(&config, false, false),
        Err(ConfigError::MissingSoundOn(p)) if p == "/a"
    ));
    assert!(matches!(
        check_sound_files(&config, true, false),
        Err(ConfigError::MissingSoundOff(p)) if p == "/b"
    ));
    config.sound_on = SoundChoice::Disabled;
    assert!(matches!(
        check_sound_files(&config, false, false),
        Err(ConfigError::MissingSoundOff(p)) if p == "/b"
    ));
}

#[test]
fn optional_texts_are_copied() {
    assert_eq!(clone_text(&None), None);
    assert_eq!(clone_text(&Some("x".to_string())), Some("x".to_string()));
}
