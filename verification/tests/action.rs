use pttkey::action::{
    apply, apply_off, apply_on, apply_outcome, apply_startup_state, set_mute, set_volume,
    ApplyError, MicCommand,
};
use pttkey::config::{Config, Level, Mode, SoundChoice, StartupState};

fn snapshot(mode: Mode, startup_state: StartupState) -> Config {
    Config {
        keys: vec![30],
        device_path: None,
        mode,
        on_level: Level { bits: 0x3F80_0000 },
        off_level: Level { bits: 0x3E80_0000 },
        sounds: true,
        sound_on: SoundChoice::Default,
        sound_off: SoundChoice::Default,
        sound_volume: Level { bits: 0x3F00_0000 },
        list_keys: false,
        list_devices: false,
        print_config: false,
        dry_run: false,
        startup_state,
        reverse: false,
        suppress: false,
    }
}

#[test]
fn volume_mode_sets_the_configured_levels() {
    let config = snapshot(Mode::Volume, StartupState::Muted);
    assert_eq!(apply_on(&config), MicCommand::SetVolume(Level { bits: 0x3F80_0000 }));
    assert_eq!(apply_off(&config), MicCommand::SetVolume(Level { bits: 0x3E80_0000 }));
}

#[test]
fn mute_mode_sets_the_mute_flag() {
    let config = snapshot(Mode::Mute, StartupState::Muted);
    assert_eq!(apply_on(&config), MicCommand::SetMute(false));
    assert_eq!(apply_off(&config), MicCommand::SetMute(true));
    assert_eq!(apply(&config, true), MicCommand::SetMute(false));
    assert_eq!(apply(&config, false), MicCommand::SetMute(true));
}

#[test]
fn applying_off_twice_asks_for_the_same_command() {
    let config = snapshot(Mode::Volume, StartupState::Muted);
    let first = apply(&config, false);
    let second = apply(&config, false);
    assert_eq!(first, second);
    let muting = snapshot(Mode::Mute, StartupState::Muted);
    assert_eq!(apply(&muting, false), apply(&muting, false));
}

#[test]
fn startup_state_picks_the_edge() {
    assert_eq!(
        apply_startup_state(&snapshot(Mode::Mute, StartupState::Muted)),
        MicCommand::SetMute(true)
    );
    assert_eq!(
        apply_startup_state(&snapshot(Mode::Mute, StartupState::Unmuted)),
        MicCommand::SetMute(false)
    );
    assert_eq!(
        apply_startup_state(&snapshot(Mode::Volume, StartupState::Unmuted)),
        MicCommand::SetVolume(Level { bits: 0x3F80_0000 })
    );
}

#[test]
fn mute_arguments_name_the_default_source() {
    assert_eq!(set_mute(true), vec!["set-mute", "@DEFAULT_SOURCE@", "1"]);
    assert_eq!(set_mute(false), vec!["set-mute", "@DEFAULT_SOURCE@", "0"]);
}

#[test]
fn volume_arguments_carry_the_rendered_level() {
    assert_eq!(set_volume("0.25"), vec!["set-volume", "@DEFAULT_SOURCE@", "0.25"]);
}

#[test]
fn a_failed_exit_counts_as_a_failure() {
    assert_eq!(apply_outcome(Some(true)), Ok(()));
    assert_eq!(apply_outcome(Some(false)), Err(ApplyError::Failed));
    assert_eq!(apply_outcome(None), Err(ApplyError::NotStarted));
}
