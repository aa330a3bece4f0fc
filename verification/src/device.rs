//! Choosing the input device, and what to do when opening it fails.
//!
//! The caller opens and enumerates devices and reports what it found as
//! plain values; the choice among them is made here.

use crate::config::Config;
use crate::passthrough::chord_contains;
use crate::text::{
    contains_text, decimal, decimal_text, starts_with, str_contains, str_starts_with,
};
use vstd::prelude::*;

verus! {

/// What is known of one input device.
#[derive(Debug)]
pub struct DeviceInfo {
    /// The name the device reports.
    pub name: String,
    /// The codes of the keys the device reports, if it reports keys at all.
    pub keys: Option<Vec<u16>>,
}

/// Why no device session could be opened.
#[derive(Copy, Clone, Debug, PartialEq, Eq, Structural)]
pub enum OpenError {
    /// The chosen device does not report this key of the chord.
    KeyNotSupported(u16),
    /// No device reports every key of the chord.
    NoDeviceFound,
}

/// What follows an attempt to open the device again.
#[derive(Copy, Clone, Debug, PartialEq, Eq, Structural)]
pub enum ReopenStep {
    /// The device is open; the loop ends.
    Opened,
    /// Access was denied; waiting cannot help, the failure is final.
    GiveUp,
    /// Wait this many milliseconds, then try again.
    RetryAfter(u64),
}

/// One step of bringing a device session into the state a snapshot asks for.
#[derive(Copy, Clone, Debug, PartialEq, Eq, Structural)]
pub enum SessionStep {
    /// Set the device to reads that do not wait.
    SetNonBlocking,
    /// Build the synthetic device that mirrors the source device.
    BuildPassthrough,
    /// Take the source device for this program alone.
    Grab,
    /// Give the source device back to everyone.
    Ungrab,
}

/// Milliseconds between two attempts to open the device again.
pub const REOPEN_BACKOFF_MS: u64 = 1000;

/// The text that marks a failure as a denial of access.
pub open spec fn permission_marker() -> Seq<char> {
    "Permission denied"@
}

/// The prefix that marks a device as this program's own synthetic device.
pub open spec fn synthetic_prefix() -> Seq<char> {
    "pttkey passthrough"@
}

/// The name of the synthetic device made for a source device.
pub open spec fn synthetic_name(source: Seq<char>) -> Seq<char> {
    synthetic_prefix() + ": "@ + source
}

/// The keys that a device reports contain the key.
pub open spec fn reports_key(keys: Option<Vec<u16>>, key: u16) -> bool {
    match keys {
        Some(codes) => codes@.contains(key),
        None => false,
    }
}

/// The position of the first key of the chord that the device does not
/// report, or the chord's length if it reports them all.
pub open spec fn first_missing(keys: Option<Vec<u16>>, chord: Seq<u16>) -> int
    decreases chord.len(),
{
    if chord.len() == 0 {
        0
    } else if !reports_key(keys, chord[0]) {
        0
    } else {
        1 + first_missing(keys, chord.skip(1))
    }
}

/// The device reports every key of the chord.
pub open spec fn supports_chord(keys: Option<Vec<u16>>, chord: Seq<u16>) -> bool {
    forall|i: int| 0 <= i < chord.len() ==> reports_key(keys, #[trigger] chord[i])
}

/// The device may be chosen by a probe: it is not this program's own
/// synthetic device, and it reports every key of the chord.
pub open spec fn eligible(device: DeviceInfo, chord: Seq<u16>) -> bool {
    !starts_with(device.name@, synthetic_prefix()) && supports_chord(device.keys, chord)
}

/// The message that tells the user why no device could be opened; `path`
/// is the device selector that was tried.
pub open spec fn open_error_text(error: OpenError, path: Seq<char>) -> Seq<char> {
    match error {
        OpenError::KeyNotSupported(key) => "Device "@ + path + " does not support key "@
            + decimal_text(key as nat),
        OpenError::NoDeviceFound => "No input device found that supports all configured keys"@,
    }
}

impl OpenError {
    /// The message that tells the user of this error.
    pub fn message(&self, path: &str) -> (text: String)
        ensures
            text@ == open_error_text(*self, path@),
    {
        match self {
            OpenError::KeyNotSupported(key) => {
                let mut text = "Device ".to_owned();
                text.append(path);
                text.append(" does not support key ");
                text.append(decimal(*key).as_str());
                text
            },
            OpenError::NoDeviceFound => {
                "No input device found that supports all configured keys".to_owned()
            },
        }
    }
}

/// Whether a failure message tells of a denial of access.
pub fn is_permission_denied(message: &str) -> (denied: bool)
    ensures
        denied == contains_text(message@, permission_marker()),
{
    str_contains(message, "Permission denied")
}

/// The advice that goes with a failure to open the device, if it was a
/// denial of access.
pub fn open_device_with_hint(message: &str) -> (hint: Option<&'static str>)
    ensures
        hint is Some <==> contains_text(message@, permission_marker()),
        hint is Some ==> hint->Some_0@
            == "Hint: add your user to the input group or add a udev rule."@,
{
    if is_permission_denied(message) {
        Some("Hint: add your user to the input group or add a udev rule.")
    } else {
        None
    }
}

/// Decides how the reopen loop goes on after one attempt, given the
/// attempt's failure message or none if it succeeded.
pub fn reopen_step(failure: Option<&str>) -> (step: ReopenStep)
    ensures
        step == match failure {
            None => ReopenStep::Opened,
            Some(message) => if contains_text(message@, permission_marker()) {
                ReopenStep::GiveUp
            } else {
                ReopenStep::RetryAfter(REOPEN_BACKOFF_MS)
            },
        },
{
    match failure {
        None => ReopenStep::Opened,
        Some(message) => {
            if is_permission_denied(message) {
                ReopenStep::GiveUp
            } else {
                ReopenStep::RetryAfter(REOPEN_BACKOFF_MS)
            }
        },
    }
}

/// The steps that bring an open device to the suppression a snapshot asks
/// for: with suppression the synthetic device is built before the source
/// is grabbed; without it a grab is released.
pub open spec fn suppression_plan(suppress: bool) -> Seq<SessionStep> {
    if suppress {
        seq![SessionStep::BuildPassthrough, SessionStep::Grab]
    } else {
        seq![SessionStep::Ungrab]
    }
}

/// The steps after a device was opened: first reads are set not to wait,
/// then suppression is set up.
pub open spec fn session_plan(suppress: bool) -> Seq<SessionStep> {
    seq![SessionStep::SetNonBlocking] + suppression_plan(suppress)
}

/// The steps that change suppression on an open session.
pub fn suppression_steps(suppress: bool) -> (steps: Vec<SessionStep>)
    ensures
        steps@ == suppression_plan(suppress),
{
    let mut steps: Vec<SessionStep> = Vec::new();
    if suppress {
        steps.push(SessionStep::BuildPassthrough);
        steps.push(SessionStep::Grab);
    } else {
        steps.push(SessionStep::Ungrab);
    }
    assert(steps@ =~= suppression_plan(suppress));
    steps
}

/// The steps after a device was opened.
pub fn session_steps(suppress: bool) -> (steps: Vec<SessionStep>)
    ensures
        steps@ == session_plan(suppress),
{
    let mut steps: Vec<SessionStep> = Vec::new();
    steps.push(SessionStep::SetNonBlocking);
    let mut rest = suppression_steps(suppress);
    steps.append(&mut rest);
    assert(steps@ =~= session_plan(suppress));
    steps
}

/// Whether the failure of a step fails the attempt to open the session.
/// Only the release of a grab may fail without consequence.
pub fn step_is_fatal(step: SessionStep) -> (fatal: bool)
    ensures
        fatal == (step != SessionStep::Ungrab),
{
    match step {
        SessionStep::Ungrab => false,
        _ => true,
    }
}

/// Whether a device of this name is this program's own synthetic device.
pub fn is_own_device(name: &str) -> (own: bool)
    ensures
        own == starts_with(name@, synthetic_prefix()),
{
    str_starts_with(name, "pttkey passthrough")
}

/// The name of the synthetic device made for a source device.
pub fn passthrough_name(source: &str) -> (name: String)
    ensures
        name@ == synthetic_name(source@),
{
    let mut name = "pttkey passthrough".to_owned();
    name.append(": ");
    name.append(source);
    name
}

/// Whether the device reports the key.
fn device_reports(keys: &Option<Vec<u16>>, key: u16) -> (found: bool)
    ensures
        found == reports_key(*keys, key),
{
    match keys {
        Some(codes) => chord_contains(codes, key),
        None => false,
    }
}

/// Checks one device against the chord: the first key of the chord that
/// the device does not report is the reason to refuse it.
pub fn check_device(device: &DeviceInfo, chord: &Vec<u16>) -> (checked: Result<(), OpenError>)
    ensures
        checked is Ok <==> supports_chord(device.keys, chord@),
        checked matches Err(error) ==> {
            let at = first_missing(device.keys, chord@);
            0 <= at < chord@.len() && error == OpenError::KeyNotSupported(chord@[at])
        },
{
    let mut i: usize = 0;
    assert(chord@.skip(0) =~= chord@);
    while i < chord.len()
        invariant
            i <= chord.len(),
            forall|j: int| 0 <= j < i ==> reports_key(device.keys, #[trigger] chord@[j]),
            first_missing(device.keys, chord@) == i + first_missing(device.keys, chord@.skip(i as int)),
        decreases chord.len() - i,
    {
        let ghost rest = chord@.skip(i as int);
        assert(rest[0] == chord@[i as int]);
        assert(rest.skip(1) =~= chord@.skip(i + 1));
        if !device_reports(&device.keys, chord[i]) {
            return Err(OpenError::KeyNotSupported(chord[i]));
        }
        i += 1;
    }
    Ok(())
}

/// Probes the devices in their order: the first eligible one is chosen.
pub fn pick_device(devices: &Vec<DeviceInfo>, chord: &Vec<u16>) -> (picked: Result<usize, OpenError>)
    ensures
        match picked {
            Ok(at) => at < devices@.len() && eligible(devices@[at as int], chord@) && forall|j: int|
                0 <= j < at ==> !eligible(#[trigger] devices@[j], chord@),
            Err(error) => error == OpenError::NoDeviceFound && forall|j: int|
                0 <= j < devices@.len() ==> !eligible(#[trigger] devices@[j], chord@),
        },
{
    let mut i: usize = 0;
    while i < devices.len()
        invariant
            i <= devices.len(),
            forall|j: int| 0 <= j < i ==> !eligible(#[trigger] devices@[j], chord@),
        decreases devices.len() - i,
    {
        let device = &devices[i];
        if !is_own_device(device.name.as_str()) {
            if check_device(device, chord).is_ok() {
                return Ok(i);
            }
        }
        i += 1;
    }
    Err(OpenError::NoDeviceFound)
}

/// Chooses the device for a snapshot. With an explicit selector, `devices`
/// holds the one device that was opened at that path, and it is checked
/// against the chord with no fallback. Without one, `devices` holds every
/// input device in the order of enumeration, and the first eligible one is
/// chosen.
pub fn open_device(config: &Config, devices: &Vec<DeviceInfo>) -> (opened: Result<usize, OpenError>)
    ensures
        config.device_path is Some && devices@.len() > 0 ==> {
            &&& opened is Ok <==> supports_chord(devices@[0].keys, config.keys@)
            &&& opened is Ok ==> opened->Ok_0 == 0
            &&& opened matches Err(error) ==> {
                let at = first_missing(devices@[0].keys, config.keys@);
                0 <= at < config.keys@.len() && error == OpenError::KeyNotSupported(
                    config.keys@[at],
                )
            }
        },
        config.device_path is Some && devices@.len() == 0 ==> opened == Err::<usize, OpenError>(
            OpenError::NoDeviceFound,
        ),
        config.device_path is None ==> match opened {
            Ok(at) => at < devices@.len() && eligible(devices@[at as int], config.keys@)
                && forall|j: int| 0 <= j < at ==> !eligible(#[trigger] devices@[j], config.keys@),
            Err(error) => error == OpenError::NoDeviceFound && forall|j: int|
                0 <= j < devices@.len() ==> !eligible(#[trigger] devices@[j], config.keys@),
        },
{
    if config.device_path.is_some() {
        if devices.len() == 0 {
            return Err(OpenError::NoDeviceFound);
        }
        match check_device(&devices[0], &config.keys) {
            Ok(()) => Ok(0),
            Err(error) => Err(error),
        }
    } else {
        pick_device(devices, &config.keys)
    }
}

/// The synthetic device is never picked by a probe, whatever keys it reports
/// and whatever the source device is called.
pub proof fn own_device_is_never_eligible(device: DeviceInfo, source: Seq<char>, chord: Seq<u16>)
    requires
        device.name@ == synthetic_name(source),
    ensures
        !eligible(device, chord),
{
    let name = synthetic_name(source);
    let prefix = synthetic_prefix();
    assert(name.subrange(0, prefix.len() as int) =~= prefix);
}

/// Two attempts to open the device again are at least a second apart, and
/// only a denial of access ends the loop without a device.
pub proof fn reopen_waits_a_second(step: ReopenStep, message: Seq<char>)
    requires
        step == if contains_text(message, permission_marker()) {
            ReopenStep::GiveUp
        } else {
            ReopenStep::RetryAfter(REOPEN_BACKOFF_MS)
        },
    ensures
        step matches ReopenStep::RetryAfter(wait) ==> wait >= 1000,
        step == ReopenStep::GiveUp <==> contains_text(message, permission_marker()),
        step != ReopenStep::Opened,
{
}

} // verus!
