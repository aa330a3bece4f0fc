use pttkey::config::{Config, Level, Mode, SoundChoice, StartupState};
use pttkey::device::{
    check_device, is_own_device, is_permission_denied, open_device, open_device_with_hint,
    passthrough_name, pick_device, reopen_step, session_steps, step_is_fatal, suppression_steps,
    DeviceInfo, OpenError, ReopenStep, SessionStep,
};

fn device(name: &str, keys: Option<Vec<u16>>) -> DeviceInfo {
    DeviceInfo { name: name.to_string(), keys }
}

fn snapshot(keys: Vec<u16>, device_path: Option<&str>) -> Config {
    Config {
        keys,
        device_path: device_path.map(|p| p.to_string()),
        mode: Mode::Mute,
        on_level: Level { bits: 0x3F80_0000 },
        off_level: Level { bits: 0 },
        sounds: true,
        sound_on: SoundChoice::Default,
        sound_off: SoundChoice::Default,
        sound_volume: Level { bits: 0x3F80_0000 },
        list_keys: false,
        list_devices: false,
        print_config: false,
        dry_run: false,
        startup_state: StartupState::Muted,
        reverse: false,
        suppress: false,
    }
}

#[test]
fn permission_denied_is_found_anywhere_in_the_message() {
    assert!(is_permission_denied("Permission denied"));
    assert!(is_permission_denied("Failed to open device /dev/input/event3: Permission denied (os error 13)"));
    assert!(!is_permission_denied("permission denied"));
    assert!(!is_permission_denied("No such device"));
    assert!(!is_permission_denied("Permission denie"));
    assert!(!is_permission_denied(""));
}

#[test]
fn the_hint_comes_with_a_denial_only() {
    assert_eq!(
        open_device_with_hint("open: Permission denied"),
        Some("Hint: add your user to the input group or add a udev rule.")
    );
    assert_eq!(open_device_with_hint("No such file or directory"), None);
}

#[test]
fn reopen_retries_after_a_second_unless_denied() {
    assert_eq!(reopen_step(None), ReopenStep::Opened);
    assert_eq!(reopen_step(Some("No such device")), ReopenStep::RetryAfter(1000));
    assert_eq!(reopen_step(Some("")), ReopenStep::RetryAfter(1000));
    assert_eq!(reopen_step(Some("x: Permission denied")), ReopenStep::GiveUp);
}

#[test]
fn synthetic_devices_are_recognised_by_their_prefix() {
    let name = passthrough_name("Logitech G502");
    assert_eq!(name, "pttkey passthrough: Logitech G502");
    assert!(is_own_device(&name));
    assert!(is_own_device("pttkey passthrough"));
    assert!(!is_own_device("Logitech G502"));
    assert!(!is_own_device("my pttkey passthrough: x"));
    assert!(!is_own_device(""));
}

#[test]
fn a_device_is_checked_against_the_whole_chord() {
    let mouse = device("mouse", Some(vec![0x110, 0x111, 0x114]));
    assert_eq!(check_device(&mouse, &vec![0x114]), Ok(()));
    assert_eq!(check_device(&mouse, &vec![0x114, 0x110]), Ok(()));
    assert_eq!(check_device(&mouse, &vec![0x114, 30, 31]), Err(OpenError::KeyNotSupported(30)));
    assert_eq!(check_device(&mouse, &vec![]), Ok(()));
    let mute = device("lid switch", None);
    assert_eq!(check_device(&mute, &vec![30]), Err(OpenError::KeyNotSupported(30)));
}

#[test]
fn probing_takes_the_first_eligible_device() {
    let devices = vec![
        device("lid switch", None),
        device("pttkey passthrough: keyboard", Some(vec![30, 31])),
        device("mouse", Some(vec![0x110])),
        device("keyboard", Some(vec![30, 31])),
        device("second keyboard", Some(vec![30, 31, 32])),
    ];
    assert_eq!(pick_device(&devices, &vec![30, 31]), Ok(3));
    assert_eq!(pick_device(&devices, &vec![32]), Ok(4));
    assert_eq!(pick_device(&devices, &vec![0x110]), Ok(2));
    assert_eq!(pick_device(&devices, &vec![99]), Err(OpenError::NoDeviceFound));
    assert_eq!(pick_device(&vec![], &vec![30]), Err(OpenError::NoDeviceFound));
}

#[test]
fn an_explicit_device_is_never_replaced() {
    let chosen = vec![device("mouse", Some(vec![0x110]))];
    assert_eq!(open_device(&snapshot(vec![0x110], Some("/dev/input/event3")), &chosen), Ok(0));
    assert_eq!(
        open_device(&snapshot(vec![30], Some("/dev/input/event3")), &chosen),
        Err(OpenError::KeyNotSupported(30))
    );
    assert_eq!(
        open_device(&snapshot(vec![30], Some("/dev/input/event3")), &vec![]),
        Err(OpenError::NoDeviceFound)
    );
    let own = vec![device("pttkey passthrough: mouse", Some(vec![0x110]))];
    assert_eq!(open_device(&snapshot(vec![0x110], Some("/dev/input/event9")), &own), Ok(0));
    assert_eq!(open_device(&snapshot(vec![0x110], None), &own), Err(OpenError::NoDeviceFound));
}

#[test]
fn open_error_messages() {
    assert_eq!(
        OpenError::KeyNotSupported(276).message("/dev/input/event3"),
        "Device /dev/input/event3 does not support key 276"
    );
    assert_eq!(
        OpenError::NoDeviceFound.message(""),
        "No input device found that supports all configured keys"
    );
}

#[test]
fn session_steps_in_order() {
    assert_eq!(
        session_steps(true),
        vec![SessionStep::SetNonBlocking, SessionStep::BuildPassthrough, SessionStep::Grab]
    );
    assert_eq!(session_steps(false), vec![SessionStep::SetNonBlocking, SessionStep::Ungrab]);
    assert_eq!(suppression_steps(true), vec![SessionStep::BuildPassthrough, SessionStep::Grab]);
    assert_eq!(suppression_steps(false), vec![SessionStep::Ungrab]);
}

#[test]
fn only_a_failed_release_is_ignored() {
    assert!(step_is_fatal(SessionStep::SetNonBlocking));
    assert!(step_is_fatal(SessionStep::BuildPassthrough));
    assert!(step_is_fatal(SessionStep::Grab));
    assert!(!step_is_fatal(SessionStep::Ungrab));
}
