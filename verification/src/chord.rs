//! Chord tracking: which keys are held, and whether the microphone should be on.

use crate::config::Config;
use std::collections::HashSet;
use vstd::prelude::*;

verus! {

broadcast use vstd::std_specs::hash::group_hash_axioms;

/// Value of a key event that reports a press.
pub const KEY_PRESSED: i32 = 1;

/// Value of a key event that reports a release.
pub const KEY_RELEASED: i32 = 0;

/// The set of keys after a key event with the given value: a press adds the
/// key, a release removes it, and any other value (auto-repeat) changes nothing.
pub open spec fn pressed_after(pressed: Set<u16>, key: u16, value: i32) -> Set<u16> {
    if value == KEY_PRESSED {
        pressed.insert(key)
    } else if value == KEY_RELEASED {
        pressed.remove(key)
    } else {
        pressed
    }
}

/// Every key of the chord is currently held.
pub open spec fn chord_held(keys: Seq<u16>, pressed: Set<u16>) -> bool {
    forall|i: int| 0 <= i < keys.len() ==> pressed.contains(#[trigger] keys[i])
}

/// The activation that a chord, a reverse flag and a set of held keys call for.
pub open spec fn activation_wanted(keys: Seq<u16>, reverse: bool, pressed: Set<u16>) -> bool {
    chord_held(keys, pressed) != reverse
}

/// Records one key event in the set of held keys.
pub fn update_pressed_keys(pressed: &mut HashSet<u16>, key: u16, value: i32)
    ensures
        final(pressed)@ == pressed_after(old(pressed)@, key, value),
{
    if value == KEY_PRESSED {
        pressed.insert(key);
    } else if value == KEY_RELEASED {
        pressed.remove(&key);
    }
}

/// Whether every key of the chord is in the set of held keys.
pub fn all_pressed(keys: &Vec<u16>, pressed: &HashSet<u16>) -> (held: bool)
    ensures
        held == chord_held(keys@, pressed@),
{
    let mut i: usize = 0;
    while i < keys.len()
        invariant
            i <= keys.len(),
            forall|j: int| 0 <= j < i ==> pressed@.contains(#[trigger] keys@[j]),
        decreases keys.len() - i,
    {
        if !pressed.contains(&keys[i]) {
            return false;
        }
        i += 1;
    }
    true
}

/// The activation that the snapshot calls for while these keys are held:
/// on exactly when the whole chord is held, or the opposite when reversed.
pub fn desired_activation(config: &Config, pressed: &HashSet<u16>) -> (wanted: bool)
    ensures
        wanted == activation_wanted(config.keys@, config.reverse, pressed@),
{
    all_pressed(&config.keys, pressed) != config.reverse
}

/// Without reversal the microphone is wanted on exactly when every key of
/// the chord is held at once.
pub proof fn activation_iff_chord_held(keys: Seq<u16>, pressed: Set<u16>)
    requires
        keys.len() >= 1,
    ensures
        activation_wanted(keys, false, pressed) <==> (forall|k: u16|
            keys.contains(k) ==> pressed.contains(k)),
{
    if chord_held(keys, pressed) {
        assert forall|k: u16| keys.contains(k) implies pressed.contains(k) by {
            let i = choose|i: int| 0 <= i < keys.len() && keys[i] == k;
            assert(pressed.contains(keys[i]));
        }
    }
    if forall|k: u16| keys.contains(k) ==> pressed.contains(k) {
        assert forall|i: int| 0 <= i < keys.len() implies pressed.contains(#[trigger] keys[i]) by {
            assert(keys.contains(keys[i]));
        }
    }
}

/// Releasing any key of the chord deactivates, whatever else stays held.
pub proof fn release_deactivates(keys: Seq<u16>, pressed: Set<u16>, key: u16)
    requires
        keys.contains(key),
    ensures
        !activation_wanted(keys, false, pressed_after(pressed, key, KEY_RELEASED)),
{
    let i = choose|i: int| 0 <= i < keys.len() && keys[i] == key;
    assert(!pressed_after(pressed, key, KEY_RELEASED).contains(keys[i]));
}

/// Pressing the last missing key of the chord activates.
pub proof fn last_press_activates(keys: Seq<u16>, pressed: Set<u16>, key: u16)
    requires
        forall|i: int| 0 <= i < keys.len() && keys[i] != key ==> pressed.contains(#[trigger] keys[i]),
    ensures
        activation_wanted(keys, false, pressed_after(pressed, key, KEY_PRESSED)),
{
}

/// The most recent press alone does not activate: while some key of the
/// chord is not held, the microphone is not wanted on.
pub proof fn partial_chord_is_inactive(keys: Seq<u16>, pressed: Set<u16>, missing: u16)
    requires
        keys.contains(missing),
        !pressed.contains(missing),
    ensures
        !activation_wanted(keys, false, pressed),
{
    let i = choose|i: int| 0 <= i < keys.len() && keys[i] == missing;
    assert(!pressed.contains(keys[i]));
}

/// Reversal inverts the activation: reversed, the microphone is wanted on
/// exactly when the chord is not fully held.
pub proof fn reverse_inverts(keys: Seq<u16>, pressed: Set<u16>)
    ensures
        activation_wanted(keys, true, pressed) == !activation_wanted(keys, false, pressed),
        activation_wanted(keys, true, pressed) == !chord_held(keys, pressed),
{
}

/// With no key held, a chord of at least one key asks for the reverse flag itself.
pub proof fn idle_activation_is_reverse(keys: Seq<u16>, reverse: bool)
    requires
        keys.len() >= 1,
    ensures
        activation_wanted(keys, reverse, Set::<u16>::empty()) == reverse,
{
    assert(!Set::<u16>::empty().contains(keys[0]));
}

/// An event that is neither press nor release leaves the held keys as they were.
pub proof fn repeat_is_ignored(pressed: Set<u16>, key: u16, value: i32)
    requires
        value != KEY_PRESSED,
        value != KEY_RELEASED,
    ensures
        pressed_after(pressed, key, value) == pressed,
{
}

} // verus!
