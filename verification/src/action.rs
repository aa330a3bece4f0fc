//! The action applier: which command an activation calls for.
//!
//! The command itself is carried out by the caller, against the default
//! audio source. Deciding it is a pure function of the snapshot and the
//! wanted activation, so applying the same activation again asks for the
//! same command again.

use crate::config::{Config, ConfigView, Level, Mode, StartupState};
use vstd::prelude::*;

verus! {

/// A change to the default audio source.
#[derive(Copy, Clone, Debug, PartialEq, Eq, Structural)]
pub enum MicCommand {
    /// Set the absolute volume.
    SetVolume(Level),
    /// Set the mute flag.
    SetMute(bool),
}

/// The command that switches the microphone on (`activate`) or off.
pub open spec fn command_for(config: ConfigView, activate: bool) -> MicCommand {
    match config.mode {
        Mode::Volume => MicCommand::SetVolume(
            if activate {
                config.on_level
            } else {
                config.off_level
            },
        ),
        Mode::Mute => MicCommand::SetMute(!activate),
    }
}

/// The activation that the startup state asks for.
pub open spec fn startup_activation(state: StartupState) -> bool {
    state == StartupState::Unmuted
}

/// The command for an activation: a level in volume mode, a mute flag in mute mode.
pub fn apply(config: &Config, activate: bool) -> (command: MicCommand)
    ensures
        command == command_for(config@, activate),
{
    if activate {
        apply_on(config)
    } else {
        apply_off(config)
    }
}

/// The command that switches the microphone on.
pub fn apply_on(config: &Config) -> (command: MicCommand)
    ensures
        command == command_for(config@, true),
{
    match config.mode {
        Mode::Volume => MicCommand::SetVolume(config.on_level),
        Mode::Mute => MicCommand::SetMute(false),
    }
}

/// The command that switches the microphone off.
pub fn apply_off(config: &Config) -> (command: MicCommand)
    ensures
        command == command_for(config@, false),
{
    match config.mode {
        Mode::Volume => MicCommand::SetVolume(config.off_level),
        Mode::Mute => MicCommand::SetMute(true),
    }
}

/// The command that puts the microphone into its startup state.
pub fn apply_startup_state(config: &Config) -> (command: MicCommand)
    ensures
        command == command_for(config@, startup_activation(config.startup_state)),
{
    match config.startup_state {
        StartupState::Muted => apply_off(config),
        StartupState::Unmuted => apply_on(config),
    }
}

/// The arguments of the volume-control program for a mute command: the
/// operation, the default source, and `1` or `0`.
pub open spec fn mute_arguments(muted: bool) -> Seq<Seq<char>> {
    seq!["set-mute"@, "@DEFAULT_SOURCE@"@, if muted { "1"@ } else { "0"@ }]
}

/// The arguments of the volume-control program that set the mute flag.
pub fn set_mute(muted: bool) -> (arguments: Vec<&'static str>)
    ensures
        arguments@.len() == 3,
        arguments@.map_values(|a: &'static str| a@) == mute_arguments(muted),
{
    let mut arguments: Vec<&'static str> = Vec::new();
    arguments.push("set-mute");
    arguments.push("@DEFAULT_SOURCE@");
    arguments.push(if muted { "1" } else { "0" });
    assert(arguments@.map_values(|a: &'static str| a@) =~= mute_arguments(muted));
    arguments
}

/// The arguments of the volume-control program for a volume command: the
/// operation, the default source, and the level as the caller rendered it.
pub open spec fn volume_arguments(level: Seq<char>) -> Seq<Seq<char>> {
    seq!["set-volume"@, "@DEFAULT_SOURCE@"@, level]
}

/// The arguments of the volume-control program that set the volume.
pub fn set_volume(level: &str) -> (arguments: Vec<String>)
    ensures
        arguments@.len() == 3,
        arguments@.map_values(|a: String| a@) == volume_arguments(level@),
{
    let mut arguments: Vec<String> = Vec::new();
    arguments.push("set-volume".to_owned());
    arguments.push("@DEFAULT_SOURCE@".to_owned());
    arguments.push(level.to_owned());
    assert(arguments@.map_values(|a: String| a@) =~= volume_arguments(level@));
    arguments
}

/// Why a command was not carried out.
#[derive(Copy, Clone, Debug, PartialEq, Eq, Structural)]
pub enum ApplyError {
    /// The volume-control program could not be started.
    NotStarted,
    /// The volume-control program ended with a failure.
    Failed,
}

/// How a run of the volume-control program counts, given whether it ended
/// with success, or nothing if it could not be started at all.
pub open spec fn run_outcome(exit: Option<bool>) -> Result<(), ApplyError> {
    match exit {
        None => Err(ApplyError::NotStarted),
        Some(false) => Err(ApplyError::Failed),
        Some(true) => Ok(()),
    }
}

/// Judges a run of the volume-control program: a program that is missing
/// and a program that ends with a failure both count as an error.
pub fn apply_outcome(exit: Option<bool>) -> (outcome: Result<(), ApplyError>)
    ensures
        outcome == run_outcome(exit),
{
    match exit {
        None => Err(ApplyError::NotStarted),
        Some(false) => Err(ApplyError::Failed),
        Some(true) => Ok(()),
    }
}

/// What the default audio source is set to.
pub struct MicState {
    pub volume: Level,
    pub muted: bool,
}

/// The source after a command: a volume command sets the volume and leaves
/// the mute flag, a mute command sets the mute flag and leaves the volume.
pub open spec fn mic_after(state: MicState, command: MicCommand) -> MicState {
    match command {
        MicCommand::SetVolume(volume) => MicState { volume, ..state },
        MicCommand::SetMute(muted) => MicState { muted, ..state },
    }
}

/// Applying the same activation twice leaves the microphone as applying it
/// once does: both times the same command is asked for, and carrying a
/// command out again changes nothing.
pub proof fn apply_is_idempotent(config: ConfigView, activate: bool, state: MicState)
    ensures
        mic_after(mic_after(state, command_for(config, activate)), command_for(config, activate))
            == mic_after(state, command_for(config, activate)),
{
}

/// After "off" the microphone is silent in the way the mode provides:
/// muted in mute mode, at the off level in volume mode.
pub proof fn off_silences(config: ConfigView, state: MicState)
    ensures
        config.mode == Mode::Mute ==> mic_after(state, command_for(config, false)).muted,
        config.mode == Mode::Volume ==> mic_after(state, command_for(config, false)).volume
            == config.off_level,
{
}

/// In mute mode the microphone is muted exactly when it is not active,
/// whatever the configured levels.
pub proof fn mute_mode_ignores_levels(config: ConfigView, activate: bool)
    requires
        config.mode == Mode::Mute,
    ensures
        command_for(config, activate) == MicCommand::SetMute(!activate),
{
}

} // verus!
