use pttkey::action::MicCommand;
use pttkey::config::{Config, Level, Mode, SoundChoice, StartupState};
use pttkey::engine::{same_keys, same_text, Effect, Engine};
use pttkey::event::RawEvent;

const KEY_A: u16 = 30;
const KEY_B: u16 = 48;

fn base(keys: Vec<u16>) -> Config {
    Config {
        keys,
        device_path: None,
        mode: Mode::Mute,
        on_level: Level { bits: 0x3F80_0000 },
        off_level: Level { bits: 0 },
        sounds: true,
        sound_on: SoundChoice::Default,
        sound_off: SoundChoice::Default,
        sound_volume: Level { bits: 0x3F80_0000 },
        list_keys: false,
        list_devices: false,
        print_config: false,
        dry_run: false,
        startup_state: StartupState::Muted,
        reverse: false,
        suppress: false,
    }
}

fn key(code: u16, value: i32) -> RawEvent {
    RawEvent { kind: 1, code, value }
}

fn sync() -> RawEvent {
    RawEvent { kind: 0, code: 0, value: 0 }
}

#[test]
fn end_to_end_single_key_mute_mode() {
    let (mut engine, effects) = Engine::start(base(vec![KEY_A]));
    assert_eq!(effects.len(), 2);
    assert!(matches!(effects[0], Effect::Apply(MicCommand::SetMute(true))));
    assert!(matches!(effects[1], Effect::OpenSession));
    assert!(!engine.is_active());
    engine.session_opened();

    let pressed = engine.handle_events(&vec![key(KEY_A, 1), sync()]);
    assert_eq!(pressed.len(), 1);
    assert!(matches!(pressed[0], Effect::Switch(true, MicCommand::SetMute(false))));
    assert!(engine.is_active());
    assert!(engine.is_pressed(KEY_A));

    let released = engine.handle_events(&vec![key(KEY_A, 0), sync()]);
    assert_eq!(released.len(), 1);
    assert!(matches!(released[0], Effect::Switch(false, MicCommand::SetMute(true))));
    assert!(!engine.is_active());
    assert_eq!(engine.pressed_count(), 0);
}

#[test]
fn chord_activates_only_when_every_key_is_held() {
    let (mut engine, _) = Engine::start(base(vec![KEY_A, KEY_B]));
    assert!(engine.handle_events(&vec![key(KEY_A, 1)]).is_empty());
    assert!(!engine.is_active());
    let both = engine.handle_events(&vec![key(KEY_B, 1)]);
    assert!(matches!(both[0], Effect::Switch(true, _)));
    assert!(engine.is_active());
    let one_up = engine.handle_events(&vec![key(KEY_A, 0)]);
    assert!(matches!(one_up[0], Effect::Switch(false, _)));
    assert!(!engine.is_active());
    assert!(engine.is_pressed(KEY_B));
}

#[test]
fn repeats_and_unrelated_keys_ask_for_nothing() {
    let (mut engine, _) = Engine::start(base(vec![KEY_A]));
    assert_eq!(engine.handle_events(&vec![key(KEY_A, 1)]).len(), 1);
    assert!(engine.handle_events(&vec![key(KEY_A, 2), key(KEY_A, 2), sync()]).is_empty());
    assert!(engine.handle_events(&vec![key(KEY_B, 1), key(KEY_B, 0)]).is_empty());
    assert!(engine.handle_events(&vec![RawEvent { kind: 2, code: 0, value: 4 }]).is_empty());
    assert!(engine.is_active());
}

#[test]
fn press_and_release_in_one_batch_switch_twice() {
    let (mut engine, _) = Engine::start(base(vec![KEY_A]));
    let effects = engine.handle_events(&vec![key(KEY_A, 1), sync(), key(KEY_A, 0), sync()]);
    assert_eq!(effects.len(), 2);
    assert!(matches!(effects[0], Effect::Switch(true, _)));
    assert!(matches!(effects[1], Effect::Switch(false, _)));
    assert!(!engine.is_active());
}

#[test]
fn reverse_starts_active_and_pressing_deactivates() {
    let mut config = base(vec![KEY_A]);
    config.reverse = true;
    config.startup_state = StartupState::Unmuted;
    let (mut engine, effects) = Engine::start(config);
    assert!(matches!(effects[0], Effect::Apply(MicCommand::SetMute(false))));
    assert!(engine.is_active());
    let pressed = engine.handle_events(&vec![key(KEY_A, 1)]);
    assert!(matches!(pressed[0], Effect::Switch(false, MicCommand::SetMute(true))));
    assert!(!engine.is_active());
    let released = engine.handle_events(&vec![key(KEY_A, 0)]);
    assert!(matches!(released[0], Effect::Switch(true, MicCommand::SetMute(false))));
    assert!(engine.is_active());
}

#[test]
fn volume_mode_switches_between_the_levels() {
    let mut config = base(vec![KEY_A]);
    config.mode = Mode::Volume;
    config.on_level = Level { bits: 0x3F00_0000 };
    config.off_level = Level { bits: 0x3DCC_CCCD };
    let (mut engine, effects) = Engine::start(config);
    assert!(matches!(
        effects[0],
        Effect::Apply(MicCommand::SetVolume(Level { bits: 0x3DCC_CCCD }))
    ));
    let pressed = engine.handle_events(&vec![key(KEY_A, 1)]);
    assert!(matches!(
        pressed[0],
        Effect::Switch(true, MicCommand::SetVolume(Level { bits: 0x3F00_0000 }))
    ));
}

#[test]
fn suppression_forwards_all_but_the_chord() {
    let mut config = base(vec![KEY_A]);
    config.suppress = true;
    let (mut engine, _) = Engine::start(config);
    let effects = engine.handle_events(&vec![key(KEY_A, 1), key(KEY_B, 1), sync()]);
    assert_eq!(effects.len(), 2);
    assert!(matches!(effects[0], Effect::Switch(true, _)));
    match &effects[1] {
        Effect::Emit(events) => assert_eq!(events, &vec![key(KEY_B, 1), sync()]),
        other => panic!("unexpected: {:?}", other),
    }
    assert_eq!(engine.pending_count(), 0);
    assert!(engine.is_active());
}

#[test]
fn without_suppression_nothing_is_emitted() {
    let (mut engine, _) = Engine::start(base(vec![KEY_A]));
    let effects = engine.handle_events(&vec![key(KEY_B, 1), sync()]);
    assert!(effects.is_empty());
    assert_eq!(engine.pending_count(), 0);
}

#[test]
fn would_block_is_no_error() {
    let (mut engine, _) = Engine::start(base(vec![KEY_A]));
    engine.handle_events(&vec![key(KEY_A, 1)]);
    assert!(engine.on_read_error(true).is_empty());
    assert!(engine.is_active());
    assert!(engine.is_pressed(KEY_A));
}

#[test]
fn a_lost_device_forces_off_and_forgets_keys() {
    let mut config = base(vec![KEY_A]);
    config.suppress = true;
    let (mut engine, _) = Engine::start(config);
    engine.handle_events(&vec![key(KEY_A, 1), key(KEY_B, 1)]);
    assert!(engine.is_active());
    assert_eq!(engine.pending_count(), 1);
    let effects = engine.on_read_error(false);
    assert_eq!(effects.len(), 2);
    assert!(matches!(effects[0], Effect::Apply(MicCommand::SetMute(true))));
    assert!(matches!(effects[1], Effect::OpenSession));
    assert!(!engine.is_active());
    assert_eq!(engine.pressed_count(), 0);
    assert_eq!(engine.pending_count(), 0);
    engine.session_opened();
    assert_eq!(engine.pressed_count(), 0);
    // After recovery the chord works as before.
    let pressed = engine.handle_events(&vec![key(KEY_A, 1)]);
    assert!(matches!(pressed[0], Effect::Switch(true, _)));
}

#[test]
fn volume_only_reload_keeps_keys_and_activation() {
    let (mut engine, _) = Engine::start(base(vec![KEY_A]));
    engine.handle_events(&vec![key(KEY_A, 1)]);
    let mut new = base(vec![KEY_A]);
    new.sound_volume = Level { bits: 0x3F00_0000 };
    let effects = engine.reload(new);
    assert_eq!(effects.len(), 1);
    assert!(matches!(effects[0], Effect::RebuildCache));
    assert!(engine.is_active());
    assert!(engine.is_pressed(KEY_A));
    assert_eq!(engine.config().sound_volume, Level { bits: 0x3F00_0000 });
}

#[test]
fn device_selector_reload_rebuilds_the_session() {
    let (mut engine, _) = Engine::start(base(vec![KEY_A]));
    engine.handle_events(&vec![key(KEY_A, 1)]);
    assert!(engine.is_active());
    let mut new = base(vec![KEY_A]);
    new.device_path = Some("/dev/input/event7".to_string());
    let effects = engine.reload(new);
    assert_eq!(effects.len(), 3);
    assert!(matches!(effects[0], Effect::RebuildCache));
    assert!(matches!(effects[1], Effect::Apply(MicCommand::SetMute(true))));
    assert!(matches!(effects[2], Effect::OpenSession));
    assert_eq!(engine.pressed_count(), 0);
    assert!(!engine.is_active());
}

#[test]
fn chord_reload_with_reverse_switches_on_from_the_empty_set() {
    let (mut engine, _) = Engine::start(base(vec![KEY_A]));
    let mut new = base(vec![KEY_B]);
    new.reverse = true;
    let effects = engine.reload(new);
    assert_eq!(effects.len(), 4);
    assert!(matches!(effects[1], Effect::Apply(MicCommand::SetMute(true))));
    assert!(matches!(effects[2], Effect::OpenSession));
    assert!(matches!(effects[3], Effect::Switch(true, MicCommand::SetMute(false))));
    assert!(engine.is_active());
}

#[test]
fn suppress_only_reload_regrabs_without_reopening() {
    let (mut engine, _) = Engine::start(base(vec![KEY_A]));
    engine.handle_events(&vec![key(KEY_A, 1)]);
    let mut new = base(vec![KEY_A]);
    new.suppress = true;
    let effects = engine.reload(new);
    assert_eq!(effects.len(), 2);
    assert!(matches!(effects[0], Effect::RebuildCache));
    assert!(matches!(effects[1], Effect::Resuppress));
    assert!(engine.is_pressed(KEY_A));
    assert!(engine.is_active());
    assert_eq!(engine.poll_interval_ms(), 1);
}

#[test]
fn reverse_only_reload_switches_against_the_held_keys() {
    let (mut engine, _) = Engine::start(base(vec![KEY_A]));
    let mut new = base(vec![KEY_A]);
    new.reverse = true;
    let effects = engine.reload(new);
    assert_eq!(effects.len(), 2);
    assert!(matches!(effects[1], Effect::Switch(true, MicCommand::SetMute(false))));
    assert!(engine.is_active());
}

#[test]
fn shutdown_always_forces_off() {
    let (mut engine, _) = Engine::start(base(vec![KEY_A]));
    engine.handle_events(&vec![key(KEY_A, 1)]);
    let effects = engine.shutdown();
    assert_eq!(effects.len(), 1);
    assert!(matches!(effects[0], Effect::Apply(MicCommand::SetMute(true))));
}

#[test]
fn poll_interval_depends_on_suppression() {
    let (engine, _) = Engine::start(base(vec![KEY_A]));
    assert_eq!(engine.poll_interval_ms(), 10);
}

#[test]
fn snapshot_comparisons() {
    assert!(same_keys(&vec![1, 2], &vec![1, 2]));
    assert!(!same_keys(&vec![1, 2], &vec![2, 1]));
    assert!(!same_keys(&vec![1], &vec![1, 1]));
    assert!(same_text(&None, &None));
    assert!(same_text(&Some("a".to_string()), &Some("a".to_string())));
    assert!(!same_text(&Some("a".to_string()), &None));
    assert!(!same_text(&Some("a".to_string()), &Some("b".to_string())));
}

#[test]
fn a_failed_transition_is_asked_for_again() {
    let (mut engine, _) = Engine::start(base(vec![KEY_A]));
    let pressed = engine.handle_events(&vec![key(KEY_A, 1)]);
    assert!(matches!(pressed[0], Effect::Switch(true, _)));
    engine.transition_failed(true);
    assert!(!engine.is_active());
    assert!(engine.is_pressed(KEY_A));
    // The repeat of the held key recomputes and asks again.
    let again = engine.handle_events(&vec![key(KEY_A, 2)]);
    assert_eq!(again.len(), 1);
    assert!(matches!(again[0], Effect::Switch(true, MicCommand::SetMute(false))));
    assert!(engine.is_active());
}
