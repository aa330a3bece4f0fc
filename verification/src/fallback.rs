//! The fallback chain for the default sound: an ordered list of attempts,
//! each of which succeeds or fails, cut short by the first success.
//!
//! The attempts themselves (queueing a cached sound, running a player) are
//! made by the caller, who reports how each went.

use crate::audio::{default_slot, Slot, SoundCache};
use std::path::PathBuf;
use vstd::prelude::*;

verus! {

/// One attempt of the chain.
#[derive(Copy, Clone, Debug, PartialEq, Eq, Structural)]
pub enum FallbackStage {
    /// Queue the built-in sound from the cache.
    Embedded,
    /// Play a sound file of the system's sound theme.
    SoundFile,
    /// Ask the desktop to play a named sound event.
    SoundEvent,
}

/// How one candidate file of the sound-file stage went.
#[derive(Copy, Clone, Debug, PartialEq, Eq, Structural)]
pub enum ProbeOutcome {
    /// The file does not exist.
    Missing,
    /// The file exists, but the player could not be started.
    NotStarted,
    /// The player ran and ended with success (`true`) or failure.
    Exited(bool),
}

/// The stage that follows, if the chain goes on.
pub open spec fn stage_after(stage: FallbackStage, succeeded: bool) -> Option<FallbackStage> {
    if succeeded {
        None
    } else {
        match stage {
            FallbackStage::Embedded => Some(FallbackStage::SoundFile),
            FallbackStage::SoundFile => Some(FallbackStage::SoundEvent),
            FallbackStage::SoundEvent => None,
        }
    }
}

/// The verdict of the sound-file stage over its candidates in order: the
/// first candidate for which the player ran decides, and no later one is
/// tried; without any such candidate the stage fails.
pub open spec fn paplay_verdict(outcomes: Seq<ProbeOutcome>) -> bool
    decreases outcomes.len(),
{
    if outcomes.len() == 0 {
        false
    } else {
        match outcomes[0] {
            ProbeOutcome::Exited(success) => success,
            _ => paplay_verdict(outcomes.skip(1)),
        }
    }
}

/// The candidate files of the sound theme for an edge, best first.
pub open spec fn candidate_paths(on: bool) -> Seq<Seq<char>> {
    if on {
        seq![
            "/usr/share/sounds/freedesktop/stereo/audio-volume-change.oga"@,
            "/usr/share/sounds/freedesktop/stereo/audio-volume-change.wav"@,
            "/usr/share/sounds/freedesktop/stereo/audio-volume-change.ogg"@,
        ]
    } else {
        seq![
            "/usr/share/sounds/freedesktop/stereo/audio-volume-muted.oga"@,
            "/usr/share/sounds/freedesktop/stereo/audio-volume-muted.wav"@,
            "/usr/share/sounds/freedesktop/stereo/audio-volume-muted.ogg"@,
        ]
    }
}

/// The name of the sound event for an edge.
pub open spec fn event_name(on: bool) -> Seq<char> {
    if on {
        "audio-volume-change"@
    } else {
        "audio-volume-muted"@
    }
}

/// The texts of a list of string slices.
pub open spec fn texts(items: Seq<&'static str>) -> Seq<Seq<char>> {
    items.map_values(|item: &'static str| item@)
}

/// The first stage of the chain.
pub fn play_default_sound() -> (stage: FallbackStage)
    ensures
        stage == FallbackStage::Embedded,
{
    FallbackStage::Embedded
}

/// The stage to try after one stage has been tried, or none if the chain
/// ends: it ends with the first success and after the last stage.
pub fn next_stage(stage: FallbackStage, succeeded: bool) -> (next: Option<FallbackStage>)
    ensures
        next == stage_after(stage, succeeded),
{
    if succeeded {
        return None;
    }
    match stage {
        FallbackStage::Embedded => Some(FallbackStage::SoundFile),
        FallbackStage::SoundFile => Some(FallbackStage::SoundEvent),
        FallbackStage::SoundEvent => None,
    }
}

/// The embedded stage: the slot of the built-in sound to queue, if it is cached.
pub fn try_play_embedded_sound<S>(cache: &SoundCache<S>, on: bool) -> (slot: Option<Slot>)
    ensures
        slot == if cache.slot(default_slot(on)) is Some {
            Some(default_slot(on))
        } else {
            None
        },
{
    if cache.cached_default_samples(on).is_some() {
        Some(
            if on {
                Slot::DefaultOn
            } else {
                Slot::DefaultOff
            },
        )
    } else {
        None
    }
}

/// The candidate files of the sound-file stage for an edge, best first.
pub fn paplay_candidates(on: bool) -> (candidates: Vec<&'static str>)
    ensures
        texts(candidates@) == candidate_paths(on),
{
    let mut candidates: Vec<&'static str> = Vec::new();
    if on {
        candidates.push("/usr/share/sounds/freedesktop/stereo/audio-volume-change.oga");
        candidates.push("/usr/share/sounds/freedesktop/stereo/audio-volume-change.wav");
        candidates.push("/usr/share/sounds/freedesktop/stereo/audio-volume-change.ogg");
    } else {
        candidates.push("/usr/share/sounds/freedesktop/stereo/audio-volume-muted.oga");
        candidates.push("/usr/share/sounds/freedesktop/stereo/audio-volume-muted.wav");
        candidates.push("/usr/share/sounds/freedesktop/stereo/audio-volume-muted.ogg");
    }
    assert(texts(candidates@) =~= candidate_paths(on));
    candidates
}

/// Whether the sound-file stage goes on to its next candidate after this outcome.
pub fn paplay_goes_on(outcome: ProbeOutcome) -> (goes_on: bool)
    ensures
        goes_on == !(outcome is Exited),
{
    match outcome {
        ProbeOutcome::Exited(_) => false,
        _ => true,
    }
}

/// The verdict of the sound-file stage: whether the player was found at
/// all, and then what its candidates gave, in order.
pub fn try_paplay(player_found: bool, outcomes: &Vec<ProbeOutcome>) -> (success: bool)
    ensures
        success == (player_found && paplay_verdict(outcomes@)),
{
    if !player_found {
        return false;
    }
    let mut i: usize = 0;
    assert(outcomes@.skip(0) =~= outcomes@);
    while i < outcomes.len()
        invariant
            i <= outcomes.len(),
            player_found,
            paplay_verdict(outcomes@) == paplay_verdict(outcomes@.skip(i as int)),
        decreases outcomes.len() - i,
    {
        let ghost rest = outcomes@.skip(i as int);
        assert(rest[0] == outcomes@[i as int]);
        assert(rest.skip(1) =~= outcomes@.skip(i + 1));
        if let ProbeOutcome::Exited(success) = outcomes[i] {
            return success;
        }
        i += 1;
    }
    false
}

/// The name of the sound event for an edge.
pub fn default_sound_event(on: bool) -> (event: &'static str)
    ensures
        event@ == event_name(on),
{
    if on {
        "audio-volume-change"
    } else {
        "audio-volume-muted"
    }
}

/// The verdict of the sound-event stage: the player was found, ran, and
/// ended with success.
pub fn try_canberra(player_found: bool, outcome: ProbeOutcome) -> (success: bool)
    ensures
        success == (player_found && outcome == ProbeOutcome::Exited(true)),
{
    player_found && match outcome {
        ProbeOutcome::Exited(success) => success,
        _ => false,
    }
}

/// The place where a program is looked for when the search path does not have it.
pub open spec fn usr_bin_text(name: Seq<char>) -> Seq<char> {
    "/usr/bin/"@ + name
}

/// The place where a program is looked for when the search path does not have it.
pub fn usr_bin_path(name: &str) -> (path: String)
    ensures
        path@ == usr_bin_text(name@),
{
    let mut path = "/usr/bin/".to_owned();
    path.append(name);
    path
}

/// Where a program was found.
#[derive(Debug)]
pub enum Program {
    /// On the search path, at this place.
    OnPath(PathBuf),
    /// Not on the search path, but under `/usr/bin`, at this place.
    UsrBin(String),
}

/// A path of the file system, as the standard library holds it.
#[verifier::external_type_specification]
#[verifier::external_body]
pub struct ExPathBuf(PathBuf);

/// The program that a search found: the one from the search path if there
/// is one, else the one under `/usr/bin` if a file exists there.
pub fn choose_bin(looked_up: Option<PathBuf>, fallback: String, fallback_exists: bool) -> (chosen:
    Option<Program>)
    ensures
        match looked_up {
            Some(path) => chosen == Some(Program::OnPath(path)),
            None => if fallback_exists {
                chosen == Some(Program::UsrBin(fallback))
            } else {
                chosen is None
            },
        },
{
    match looked_up {
        Some(path) => Some(Program::OnPath(path)),
        None => {
            if fallback_exists {
                Some(Program::UsrBin(fallback))
            } else {
                None
            }
        },
    }
}

/// Looks a program up with `which::which`. What comes back depends on the
/// search path and the disk, so nothing is claimed of it.
#[verifier::external_body]
fn which_lookup(name: &str) -> Option<PathBuf> {
    which::which(name).ok()
}

/// Asks `Path::exists` whether a file is at a place. The answer depends on
/// the disk, so nothing is claimed of it.
#[verifier::external_body]
fn path_exists(path: &str) -> bool {
    std::path::Path::new(path).exists()
}

/// Finds a program by name: on the search path first, then under
/// `/usr/bin`. Whether it is found depends on the machine; where it is
/// found outside the search path, the place is the one under `/usr/bin`.
pub fn find_bin(name: &str) -> (found: Option<Program>)
    ensures
        found matches Some(Program::UsrBin(path)) ==> path@ == usr_bin_text(name@),
{
    let looked_up = which_lookup(name);
    if looked_up.is_some() {
        return choose_bin(looked_up, String::new(), false);
    }
    let fallback = usr_bin_path(name);
    let exists = path_exists(fallback.as_str());
    choose_bin(None, fallback, exists)
}

/// The chain tries its stages in order and stops at the first success:
/// a later stage is reached only when every earlier one failed.
pub proof fn chain_short_circuits(embedded: bool, sound_file: bool, sound_event: bool)
    ensures
        stage_after(FallbackStage::Embedded, embedded) == if embedded {
            None
        } else {
            Some(FallbackStage::SoundFile)
        },
        stage_after(FallbackStage::SoundFile, sound_file) == if sound_file {
            None
        } else {
            Some(FallbackStage::SoundEvent)
        },
        stage_after(FallbackStage::SoundEvent, sound_event) is None,
{
}

/// Candidates whose file is missing or whose player did not start do not
/// decide the sound-file stage.
pub proof fn skipped_candidates_do_not_decide(first: ProbeOutcome, rest: Seq<ProbeOutcome>)
    requires
        !(first is Exited),
    ensures
        paplay_verdict(seq![first] + rest) == paplay_verdict(rest),
{
    assert((seq![first] + rest).skip(1) =~= rest);
}

} // verus!
