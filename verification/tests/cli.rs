use pttkey::cli::{
    classify_flag, parse_args, scan_args, sound_from_value, Arg, Flag, ParsedArgs, Switch,
    ValueOption,
};
use pttkey::config::{Config, ConfigError, Level, Mode, SoundChoice, StartupState};
use pttkey::persisted::{config_from_persisted, PersistedConfig};

fn arg(text: &str) -> Arg {
    let level = match text {
        "0.5" => Some(Level { bits: 0x3F00_0000 }),
        "0.25" => Some(Level { bits: 0x3E80_0000 }),
        "0" => Some(Level { bits: 0 }),
        "1" => Some(Level { bits: 0x3F80_0000 }),
        _ => None,
    };
    Arg { text: text.to_string(), level }
}

fn args(texts: &[&str]) -> Vec<Arg> {
    texts.iter().map(|t| arg(t)).collect()
}

fn run(texts: &[&str]) -> (Config, bool) {
    match parse_args(PersistedConfig::default(), &args(texts)).unwrap() {
        ParsedArgs::Run(config, changed) => (config, changed),
        ParsedArgs::Help => panic!("help"),
    }
}

#[test]
fn no_arguments_give_the_stored_configuration() {
    let (config, changed) = run(&[]);
    assert!(!changed);
    assert_eq!(config.keys, vec![0x114]);
    assert_eq!(config.mode, Mode::Volume);
    assert_eq!(config.startup_state, StartupState::Muted);
}

#[test]
fn the_first_chord_replaces_and_later_ones_add() {
    let (config, changed) = run(&["--key", "KEY_LEFTCTRL+KEY_F", "--key", "KEY_A"]);
    assert!(changed);
    assert_eq!(config.keys, vec![29, 33, 30]);
    let (single, _) = run(&["--key", "BTN_EXTRA"]);
    assert_eq!(single.keys, vec![0x114]);
}

#[test]
fn value_options_set_their_fields() {
    let (config, changed) = run(&[
        "--device", "/dev/input/event7", "--mode", "mute", "--on-level", "0.5", "--off-level",
        "0.25", "--sound-volume", "0.5", "--startup-state", "unmuted", "--sound-on", "a.wav",
        "--sound-off", "FALSE",
    ]);
    assert!(changed);
    assert_eq!(config.device_path.as_deref(), Some("/dev/input/event7"));
    assert_eq!(config.mode, Mode::Mute);
    assert_eq!(config.on_level, Level { bits: 0x3F00_0000 });
    assert_eq!(config.off_level, Level { bits: 0x3E80_0000 });
    assert_eq!(config.sound_volume, Level { bits: 0x3F00_0000 });
    assert_eq!(config.startup_state, StartupState::Unmuted);
    assert!(matches!(&config.sound_on, SoundChoice::File(p) if p == "a.wav"));
    assert!(matches!(config.sound_off, SoundChoice::Disabled));
}

#[test]
fn switches_set_their_flags() {
    let (config, changed) = run(&["--reverse", "--no-sounds", "--suppress"]);
    assert!(changed);
    assert!(config.reverse);
    assert!(!config.sounds);
    assert!(config.suppress);
    let (undone, _) = run(&["--reverse", "--no-reverse", "--no-sounds", "--sounds", "--suppress", "--no-suppress"]);
    assert!(!undone.reverse);
    assert!(undone.sounds);
    assert!(!undone.suppress);
}

#[test]
fn listing_switches_change_nothing_stored() {
    let (config, changed) = run(&["--list-keys", "--list-devices", "--print-config", "--dry-run"]);
    assert!(!changed);
    assert!(config.list_keys && config.list_devices && config.print_config && config.dry_run);
}

#[test]
fn reverse_starts_unmuted_unless_told_otherwise() {
    let (config, _) = run(&["--reverse"]);
    assert_eq!(config.startup_state, StartupState::Unmuted);
    let (told, _) = run(&["--reverse", "--startup-state", "muted"]);
    assert_eq!(told.startup_state, StartupState::Muted);
    let (before, _) = run(&["--startup-state", "muted", "--reverse"]);
    assert_eq!(before.startup_state, StartupState::Muted);
    let mut stored = PersistedConfig::default();
    stored.reverse = true;
    match parse_args(stored, &vec![]).unwrap() {
        ParsedArgs::Run(config, changed) => {
            assert_eq!(config.startup_state, StartupState::Unmuted);
            assert!(!changed);
        }
        ParsedArgs::Help => panic!("help"),
    }
}

#[test]
fn help_ends_the_scan_at_once() {
    assert!(matches!(
        parse_args(PersistedConfig::default(), &args(&["-h"])),
        Ok(ParsedArgs::Help)
    ));
    assert!(matches!(
        parse_args(PersistedConfig::default(), &args(&["--mode", "mute", "--help", "--nope"])),
        Ok(ParsedArgs::Help)
    ));
    assert!(matches!(
        parse_args(PersistedConfig::default(), &args(&["--nope", "--help"])),
        Err(ConfigError::UnknownArgument(a)) if a == "--nope"
    ));
}

#[test]
fn a_value_is_taken_even_if_it_looks_like_an_option() {
    let (config, _) = run(&["--device", "--help"]);
    assert_eq!(config.device_path.as_deref(), Some("--help"));
}

#[test]
fn wrong_arguments_are_reported() {
    let parse = |texts: &[&str]| parse_args(PersistedConfig::default(), &args(texts)).unwrap_err();
    assert!(matches!(parse(&["--key"]), ConfigError::MissingValue(f) if f == "--key"));
    assert!(matches!(parse(&["--mode", "mute", "--device"]), ConfigError::MissingValue(f) if f == "--device"));
    assert!(matches!(parse(&["--key", "KEY_A+nope"]), ConfigError::UnknownKey(k) if k == "nope"));
    assert!(matches!(parse(&["--mode", "loud"]), ConfigError::InvalidMode(m) if m == "loud"));
    assert!(matches!(
        parse(&["--on-level", "high"]),
        ConfigError::InvalidLevel(f, v) if f == "--on-level" && v == "high"
    ));
    assert!(matches!(
        parse(&["--off-level", "low"]),
        ConfigError::InvalidLevel(f, v) if f == "--off-level" && v == "low"
    ));
    assert!(matches!(
        parse(&["--sound-volume", ""]),
        ConfigError::InvalidLevel(f, v) if f == "--sound-volume" && v.is_empty()
    ));
    assert!(matches!(
        parse(&["--startup-state", "on"]),
        ConfigError::InvalidStartupState(s) if s == "on"
    ));
    assert!(matches!(parse(&["extra"]), ConfigError::UnknownArgument(a) if a == "extra"));
    assert!(matches!(parse(&["--Reverse"]), ConfigError::UnknownArgument(a) if a == "--Reverse"));
}

#[test]
fn a_faulty_stored_configuration_comes_first() {
    let mut stored = PersistedConfig::default();
    stored.mode = "loud".to_string();
    assert!(matches!(
        parse_args(stored, &args(&["--help"])),
        Err(ConfigError::InvalidMode(m)) if m == "loud"
    ));
}

#[test]
fn sound_values() {
    assert!(matches!(sound_from_value("false"), SoundChoice::Disabled));
    assert!(matches!(sound_from_value("False"), SoundChoice::Disabled));
    assert!(matches!(sound_from_value("FALSE"), SoundChoice::Disabled));
    assert!(matches!(sound_from_value("0"), SoundChoice::Disabled));
    assert!(matches!(sound_from_value("00"), SoundChoice::File(p) if p == "00"));
    assert!(matches!(sound_from_value("true"), SoundChoice::File(p) if p == "true"));
    assert!(matches!(sound_from_value("on.wav"), SoundChoice::File(p) if p == "on.wav"));
}

#[test]
fn flags_are_classified() {
    assert_eq!(classify_flag("-h"), Flag::Help);
    assert_eq!(classify_flag("--help"), Flag::Help);
    assert_eq!(classify_flag("--key"), Flag::Value(ValueOption::Key));
    assert_eq!(classify_flag("--sound-volume"), Flag::Value(ValueOption::SoundVolume));
    assert_eq!(classify_flag("--no-reverse"), Flag::Switch(Switch::Reverse(false)));
    assert_eq!(classify_flag("--dry-run"), Flag::Switch(Switch::DryRun));
    assert_eq!(classify_flag("--keys"), Flag::Unknown);
    assert_eq!(classify_flag(""), Flag::Unknown);
}

#[test]
fn scanning_on_top_of_a_snapshot() {
    let mut config = config_from_persisted(PersistedConfig::default()).unwrap();
    config.keys = vec![1, 2];
    match scan_args(config, &args(&["--mode", "mute", "--suppress", "--dry-run"])).unwrap() {
        ParsedArgs::Run(made, changed) => {
            assert!(changed);
            assert_eq!(made.keys, vec![1, 2]);
            assert_eq!(made.mode, Mode::Mute);
            assert!(made.suppress);
            assert!(made.dry_run);
        }
        ParsedArgs::Help => panic!("help"),
    }
    let plain = config_from_persisted(PersistedConfig::default()).unwrap();
    assert!(matches!(scan_args(plain, &args(&["-h"])), Ok(ParsedArgs::Help)));
}

#[test]
fn the_chord_is_never_empty() {
    let (config, _) = run(&[]);
    assert!(!config.keys.is_empty());
    let (config, _) = run(&["--key", "KEY_A"]);
    assert!(!config.keys.is_empty());
    let mut stored = PersistedConfig::default();
    stored.keys = vec![];
    match parse_args(stored, &vec![]).unwrap() {
        ParsedArgs::Run(config, _) => assert_eq!(config.keys, vec![0x114]),
        ParsedArgs::Help => panic!("help"),
    }
    assert!(parse_args(PersistedConfig::default(), &args(&["--key", ""])).is_err());
}
