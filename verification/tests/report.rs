use pttkey::config::{Config, Level, Mode, SoundChoice, SoundSettingValue, StartupState};
use pttkey::persisted::PersistedConfig;
use pttkey::report::{bool_text, heading_line, join_plus, print_config, print_persisted_config, LevelTexts};
use pttkey::text::{chars_of, decimal, str_contains, str_starts_with};

fn levels() -> LevelTexts {
    LevelTexts {
        on_level: "1".to_string(),
        off_level: "0.1".to_string(),
        sound_volume: "0.5".to_string(),
    }
}

#[test]
fn a_snapshot_is_shown_line_by_line() {
    let config = Config {
        keys: vec![29, 33],
        device_path: None,
        mode: Mode::Mute,
        on_level: Level { bits: 0x3F80_0000 },
        off_level: Level { bits: 0x3DCC_CCCD },
        sounds: true,
        sound_on: SoundChoice::Default,
        sound_off: SoundChoice::File("/tmp/off.wav".to_string()),
        sound_volume: Level { bits: 0x3F00_0000 },
        list_keys: false,
        list_devices: false,
        print_config: true,
        dry_run: false,
        startup_state: StartupState::Unmuted,
        reverse: true,
        suppress: false,
    };
    assert_eq!(
        print_config(&config, &levels()),
        vec![
            "keys: KEY_LEFTCTRL+KEY_F",
            "device: auto",
            "mode: mute",
            "reverse: true",
            "on_level: 1",
            "off_level: 0.1",
            "sounds: true",
            "sound_on: default",
            "sound_off: /tmp/off.wav",
            "sound_volume: 0.5",
            "startup_state: unmuted",
            "suppress: false",
        ]
    );
}

#[test]
fn a_stored_configuration_is_shown_line_by_line() {
    let mut stored = PersistedConfig::default();
    stored.keys = vec![];
    stored.device_path = Some("/dev/input/event7".to_string());
    stored.sound_on = Some(SoundSettingValue::Bool(false));
    stored.sound_off = Some(SoundSettingValue::Bool(true));
    stored.mode = "whatever".to_string();
    assert_eq!(
        print_persisted_config("/home/u/.config/pttkey/config.toml", &stored, &levels()),
        vec![
            "config_path: /home/u/.config/pttkey/config.toml",
            "config_keys: BTN_EXTRA",
            "config_device: /dev/input/event7",
            "config_mode: whatever",
            "config_reverse: false",
            "config_on_level: 1",
            "config_off_level: 0.1",
            "config_sounds: true",
            "config_sound_on: disabled",
            "config_sound_off: default",
            "config_sound_volume: 0.5",
            "config_startup_state: muted",
            "config_suppress: false",
        ]
    );
    stored.keys = vec!["KEY_A".to_string(), "KEY_B".to_string(), "7".to_string()];
    assert_eq!(
        print_persisted_config("p", &stored, &levels())[1],
        "config_keys: KEY_A+KEY_B+7"
    );
}

#[test]
fn joining_and_small_texts() {
    assert_eq!(join_plus(&vec![]), "");
    assert_eq!(join_plus(&vec!["a".to_string()]), "a");
    assert_eq!(join_plus(&vec!["a".to_string(), "b".to_string(), "c".to_string()]), "a+b+c");
    assert_eq!(bool_text(true), "true");
    assert_eq!(bool_text(false), "false");
    assert_eq!(heading_line("k: ", "v"), "k: v");
}

#[test]
fn decimal_rendering() {
    assert_eq!(decimal(0), "0");
    assert_eq!(decimal(9), "9");
    assert_eq!(decimal(10), "10");
    assert_eq!(decimal(276), "276");
    assert_eq!(decimal(40009), "40009");
    assert_eq!(decimal(65535), "65535");
}

#[test]
fn substring_search() {
    assert!(str_contains("abc", ""));
    assert!(str_contains("", ""));
    assert!(!str_contains("", "a"));
    assert!(str_contains("abcabd", "abd"));
    assert!(str_contains("abcabd", "abc"));
    assert!(!str_contains("abcabd", "abe"));
    assert!(!str_contains("ab", "abc"));
    assert!(str_contains("zugriff: größe", "öß"));
    assert!(str_starts_with("abc", "ab"));
    assert!(str_starts_with("abc", ""));
    assert!(!str_starts_with("abc", "bc"));
    assert!(!str_starts_with("a", "ab"));
    assert_eq!(chars_of("aß"), vec!['a', 'ß']);
}
