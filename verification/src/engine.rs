//! The reconciliation engine: from the current state and what just happened
//! to the next state and what has to be done about it.
//!
//! The engine owns the snapshot in force, the set of held keys, the
//! activation that was last asked for and the events that wait for the end
//! of their report. It performs nothing itself. Every step returns the
//! effects to carry out, in order; the caller runs them and stops at the
//! first that fails.

use crate::action::{apply, apply_off, apply_startup_state, command_for, startup_activation, MicCommand};
use crate::chord::{activation_wanted, desired_activation, pressed_after, update_pressed_keys};
use crate::config::{text_view, Config, ConfigView};
use crate::event::{classify, event_class, EventClass, RawEvent};
use crate::passthrough::{forward_step, Forwarder};
use std::collections::HashSet;
use vstd::prelude::*;

verus! {

broadcast use vstd::std_specs::hash::group_hash_axioms;

/// Something the caller has to do.
#[derive(Debug)]
pub enum Effect {
    /// Run a microphone command without any sound.
    Apply(MicCommand),
    /// A transition: run the command, then play the sound for switching on
    /// (`true`) or off.
    Switch(bool, MicCommand),
    /// Write these events to the synthetic device.
    Emit(Vec<RawEvent>),
    /// Decode the sounds of the snapshot in force again.
    RebuildCache,
    /// Close the device session, if any, and open one for the snapshot in force.
    OpenSession,
    /// Grab or release the device of the open session, as the snapshot in force asks.
    Resuppress,
}

/// Mathematical form of an [`Effect`].
pub enum EffectView {
    Apply(MicCommand),
    Switch(bool, MicCommand),
    Emit(Seq<RawEvent>),
    RebuildCache,
    OpenSession,
    Resuppress,
}

impl View for Effect {
    type V = EffectView;

    open spec fn view(&self) -> EffectView {
        match self {
            Effect::Apply(command) => EffectView::Apply(*command),
            Effect::Switch(on, command) => EffectView::Switch(*on, *command),
            Effect::Emit(events) => EffectView::Emit(events@),
            Effect::RebuildCache => EffectView::RebuildCache,
            Effect::OpenSession => EffectView::OpenSession,
            Effect::Resuppress => EffectView::Resuppress,
        }
    }
}

/// Mathematical form of a list of effects.
pub open spec fn effects_view(effects: Seq<Effect>) -> Seq<EffectView> {
    effects.map_values(|e: Effect| e@)
}

/// Mathematical form of the engine's state.
pub struct EngineView {
    /// The snapshot in force.
    pub config: ConfigView,
    /// The keys that are held.
    pub pressed: Set<u16>,
    /// The activation that was last asked for.
    pub active: bool,
    /// Events that wait for the end of their report.
    pub pending: Seq<RawEvent>,
}

/// Milliseconds between two polls of the device.
pub const POLL_INTERVAL_MS: u64 = 10;

/// Milliseconds between two polls while the device is grabbed.
pub const POLL_INTERVAL_SUPPRESS_MS: u64 = 1;

/// The state in which the engine starts: no key held, nothing waiting, and
/// the activation that an idle chord asks for.
pub open spec fn initial_state(config: ConfigView) -> EngineView {
    EngineView {
        config,
        pressed: Set::empty(),
        active: activation_wanted(config.keys, config.reverse, Set::empty()),
        pending: Seq::empty(),
    }
}

/// The effects of starting: the startup state is applied, then the device is opened.
pub open spec fn start_effects(config: ConfigView) -> Seq<EffectView> {
    seq![
        EffectView::Apply(command_for(config, startup_activation(config.startup_state))),
        EffectView::OpenSession,
    ]
}

/// The activation that the state calls for.
pub open spec fn wanted(state: EngineView) -> bool {
    activation_wanted(state.config.keys, state.config.reverse, state.pressed)
}

/// The state's activation is the one its held keys call for.
pub open spec fn reconciled(state: EngineView) -> bool {
    state.active == wanted(state)
}

/// The transition that brings the activation to `target`, if it is not there yet.
pub open spec fn switch_to(config: ConfigView, active: bool, target: bool) -> Seq<EffectView> {
    if target != active {
        seq![EffectView::Switch(target, command_for(config, target))]
    } else {
        Seq::empty()
    }
}

/// One key event: the key is recorded, the activation recomputed, and a
/// transition asked for if it changed.
pub open spec fn key_step(state: EngineView, key: u16, value: i32) -> (EngineView, Seq<EffectView>) {
    let pressed = pressed_after(state.pressed, key, value);
    let target = activation_wanted(state.config.keys, state.config.reverse, pressed);
    (
        EngineView { pressed, active: target, ..state },
        switch_to(state.config, state.active, target),
    )
}

/// One event: a key event goes through [`key_step`]; then, while
/// suppression is on, the event goes through the forwarder.
pub open spec fn event_step(state: EngineView, event: RawEvent) -> (EngineView, Seq<EffectView>) {
    let (keyed, switched) = match event_class(event) {
        EventClass::Key(key, value) => key_step(state, key, value),
        _ => (state, Seq::empty()),
    };
    if state.config.suppress {
        let (pending, flushed) = forward_step(state.pending, state.config.keys, true, event);
        (
            EngineView { pending, ..keyed },
            match flushed {
                Some(report) => switched.push(EffectView::Emit(report)),
                None => switched,
            },
        )
    } else {
        (keyed, switched)
    }
}

/// A batch of events, one after the other.
pub open spec fn run_events(state: EngineView, events: Seq<RawEvent>) -> (EngineView, Seq<EffectView>)
    decreases events.len(),
{
    if events.len() == 0 {
        (state, Seq::empty())
    } else {
        let (before, done) = run_events(state, events.drop_last());
        let (after, more) = event_step(before, events.last());
        (after, done + more)
    }
}

/// The state after the device was lost: nothing held, nothing waiting, inactive.
pub open spec fn lost_state(state: EngineView) -> EngineView {
    EngineView { pressed: Set::empty(), active: false, pending: Seq::empty(), ..state }
}

/// The effects of losing the device: the microphone is forced off, then the
/// device is opened again.
pub open spec fn lost_effects(state: EngineView) -> Seq<EffectView> {
    seq![EffectView::Apply(command_for(state.config, false)), EffectView::OpenSession]
}

/// The state after a device session was opened: nothing held, nothing waiting.
pub open spec fn opened_state(state: EngineView) -> EngineView {
    EngineView { pressed: Set::empty(), pending: Seq::empty(), ..state }
}

/// A new snapshot asks for another device session: the chord or the device
/// selector differs.
pub open spec fn needs_reopen(old: ConfigView, new: ConfigView) -> bool {
    old.keys != new.keys || old.device_path != new.device_path
}

/// The state after a new snapshot came into force.
pub open spec fn reload_state(state: EngineView, new: ConfigView) -> EngineView {
    let reopen = needs_reopen(state.config, new);
    let pressed = if reopen {
        Set::empty()
    } else {
        state.pressed
    };
    EngineView {
        config: new,
        pressed,
        active: activation_wanted(new.keys, new.reverse, pressed),
        pending: if reopen || state.config.suppress != new.suppress {
            Seq::empty()
        } else {
            state.pending
        },
    }
}

/// The effects of a new snapshot. The sound cache is rebuilt first. Then, if
/// another session is needed, the microphone is forced off and the session
/// opened; if only suppression changed, it is redone on the open session.
/// Last comes the transition to the activation that the new snapshot asks
/// for with the keys that are still held.
pub open spec fn reload_effects(state: EngineView, new: ConfigView) -> Seq<EffectView> {
    let reopen = needs_reopen(state.config, new);
    let after = reload_state(state, new);
    let session = if reopen {
        seq![EffectView::Apply(command_for(new, false)), EffectView::OpenSession]
    } else if state.config.suppress != new.suppress {
        seq![EffectView::Resuppress]
    } else {
        Seq::empty()
    };
    let active = if reopen {
        false
    } else {
        state.active
    };
    seq![EffectView::RebuildCache] + session + switch_to(new, active, after.active)
}

/// Whether two chords name the same keys in the same order.
pub fn same_keys(a: &Vec<u16>, b: &Vec<u16>) -> (same: bool)
    ensures
        same == (a@ == b@),
{
    if a.len() != b.len() {
        return false;
    }
    let mut i: usize = 0;
    while i < a.len()
        invariant
            i <= a.len(),
            a.len() == b.len(),
            forall|j: int| 0 <= j < i ==> a@[j] == b@[j],
        decreases a.len() - i,
    {
        if a[i] != b[i] {
            return false;
        }
        i += 1;
    }
    assert(a@ =~= b@);
    true
}

/// Whether two optional texts are the same.
pub fn same_text(a: &Option<String>, b: &Option<String>) -> (same: bool)
    ensures
        same == (text_view(*a) == text_view(*b)),
{
    match (a, b) {
        (None, None) => true,
        (Some(x), Some(y)) => *x == *y,
        _ => false,
    }
}

/// The state of the reconciliation loop.
pub struct Engine {
    config: Config,
    pressed: HashSet<u16>,
    active: bool,
    forwarder: Forwarder,
}

impl View for Engine {
    type V = EngineView;

    closed spec fn view(&self) -> EngineView {
        EngineView {
            config: self.config@,
            pressed: self.pressed@,
            active: self.active,
            pending: self.forwarder@,
        }
    }
}

impl Engine {
    /// Starts the engine on a snapshot.
    pub fn start(config: Config) -> (started: (Engine, Vec<Effect>))
        ensures
            started.0@ == initial_state(config@),
            effects_view(started.1@) == start_effects(config@),
    {
        let mut effects: Vec<Effect> = Vec::new();
        effects.push(Effect::Apply(apply_startup_state(&config)));
        effects.push(Effect::OpenSession);
        let pressed: HashSet<u16> = HashSet::new();
        let active = desired_activation(&config, &pressed);
        let engine = Engine { config, pressed, active, forwarder: Forwarder::new() };
        assert(effects_view(effects@) =~= start_effects(engine.config@));
        (engine, effects)
    }

    /// The snapshot in force.
    pub fn config(&self) -> (config: &Config)
        ensures
            config@ == self@.config,
    {
        &self.config
    }

    /// The activation that was last asked for.
    pub fn is_active(&self) -> (active: bool)
        ensures
            active == self@.active,
    {
        self.active
    }

    /// Whether a key is held.
    pub fn is_pressed(&self, key: u16) -> (held: bool)
        ensures
            held == self@.pressed.contains(key),
    {
        self.pressed.contains(&key)
    }

    /// Number of keys that are held.
    pub fn pressed_count(&self) -> (count: usize)
        ensures
            count == self@.pressed.len(),
    {
        self.pressed.len()
    }

    /// Number of events that wait for the end of their report.
    pub fn pending_count(&self) -> (count: usize)
        ensures
            count == self@.pending.len(),
    {
        self.forwarder.pending_len()
    }

    /// Milliseconds to sleep before the next poll: less while the device is
    /// grabbed, since then every event waits for this program.
    pub fn poll_interval_ms(&self) -> (interval: u64)
        ensures
            interval == if self@.config.suppress {
                POLL_INTERVAL_SUPPRESS_MS
            } else {
                POLL_INTERVAL_MS
            },
    {
        if self.config.suppress {
            POLL_INTERVAL_SUPPRESS_MS
        } else {
            POLL_INTERVAL_MS
        }
    }

    /// Brings the activation to what the held keys call for and adds the
    /// transition to the effects, if there is one.
    fn refresh_active_state(&mut self, effects: &mut Vec<Effect>)
        ensures
            final(self)@ == (EngineView { active: wanted(old(self)@), ..old(self)@ }),
            effects_view(final(effects)@) == effects_view(old(effects)@) + switch_to(
                old(self)@.config,
                old(self)@.active,
                wanted(old(self)@),
            ),
    {
        let target = desired_activation(&self.config, &self.pressed);
        if target != self.active {
            self.set_active_state(target, effects);
        } else {
            assert(effects_view(effects@) =~= effects_view(effects@) + Seq::<EffectView>::empty());
        }
    }

    /// Records a transition and adds it to the effects.
    fn set_active_state(&mut self, on: bool, effects: &mut Vec<Effect>)
        ensures
            final(self)@ == (EngineView { active: on, ..old(self)@ }),
            effects_view(final(effects)@) == effects_view(old(effects)@).push(
                EffectView::Switch(on, command_for(old(self)@.config, on)),
            ),
    {
        let command = apply(&self.config, on);
        effects.push(Effect::Switch(on, command));
        self.active = on;
        assert(effects_view(effects@) =~= effects_view(old(effects)@).push(
            EffectView::Switch(on, command),
        ));
    }

    /// Takes one event.
    fn handle_event(&mut self, event: RawEvent, effects: &mut Vec<Effect>)
        ensures
            final(self)@ == event_step(old(self)@, event).0,
            effects_view(final(effects)@) == effects_view(old(effects)@) + event_step(
                old(self)@,
                event,
            ).1,
    {
        let ghost before = effects_view(effects@);
        if let EventClass::Key(key, value) = classify(event) {
            update_pressed_keys(&mut self.pressed, key, value);
            self.refresh_active_state(effects);
        } else {
            assert(effects_view(effects@) =~= before + Seq::<EffectView>::empty());
        }
        if self.config.suppress {
            let ghost switched = effects_view(effects@);
            if let Some(report) = self.forwarder.forward(&self.config.keys, true, event) {
                effects.push(Effect::Emit(report));
                assert(effects_view(effects@) =~= switched.push(EffectView::Emit(report@)));
            }
            assert(effects_view(effects@) =~= before + event_step(old(self)@, event).1);
        }
    }

    /// Takes the events of one read, in the order the device reported them.
    /// A key event updates the held keys and may ask for a transition;
    /// while suppression is on, every event also goes through the forwarder.
    pub fn handle_events(&mut self, events: &Vec<RawEvent>) -> (effects: Vec<Effect>)
        ensures
            final(self)@ == run_events(old(self)@, events@).0,
            effects_view(effects@) == run_events(old(self)@, events@).1,
    {
        let mut effects: Vec<Effect> = Vec::new();
        let mut i: usize = 0;
        assert(effects_view(effects@) =~= Seq::<EffectView>::empty());
        while i < events.len()
            invariant
                i <= events.len(),
                self@ == run_events(old(self)@, events@.take(i as int)).0,
                effects_view(effects@) == run_events(old(self)@, events@.take(i as int)).1,
            decreases events.len() - i,
        {
            proof {
                assert(events@.take(i + 1).drop_last() == events@.take(i as int));
                assert(events@.take(i + 1).last() == events@[i as int]);
            }
            self.handle_event(events[i], &mut effects);
            i += 1;
        }
        proof {
            assert(events@.take(events@.len() as int) == events@);
        }
        effects
    }

    /// Records that the transition to `on` could not be carried out: the
    /// activation falls back to the other side, so that the next
    /// recomputation asks for the transition again.
    pub fn transition_failed(&mut self, on: bool)
        ensures
            final(self)@ == (EngineView { active: !on, ..old(self)@ }),
    {
        self.active = !on;
    }

    /// Takes the failure of a read. That no event was ready (`would_block`)
    /// is no failure and changes nothing. Anything else means the device is
    /// lost: the microphone is forced off, the held keys and the activation
    /// are forgotten, and the device is to be opened again.
    pub fn on_read_error(&mut self, would_block: bool) -> (effects: Vec<Effect>)
        ensures
            would_block ==> final(self)@ == old(self)@ && effects@.len() == 0,
            !would_block ==> final(self)@ == lost_state(old(self)@) && effects_view(effects@)
                == lost_effects(old(self)@),
    {
        let mut effects: Vec<Effect> = Vec::new();
        if !would_block {
            effects.push(Effect::Apply(apply_off(&self.config)));
            effects.push(Effect::OpenSession);
            self.active = false;
            self.pressed.clear();
            self.forwarder.clear();
            assert(effects_view(effects@) =~= lost_effects(old(self)@));
        }
        effects
    }

    /// Records that a device session was opened: on a fresh session no key
    /// counts as held and no event waits.
    pub fn session_opened(&mut self)
        ensures
            final(self)@ == opened_state(old(self)@),
    {
        self.pressed.clear();
        self.forwarder.clear();
    }

    /// Puts a new snapshot in force, as a whole.
    pub fn reload(&mut self, new: Config) -> (effects: Vec<Effect>)
        ensures
            final(self)@ == reload_state(old(self)@, new@),
            effects_view(effects@) == reload_effects(old(self)@, new@),
    {
        let mut effects: Vec<Effect> = Vec::new();
        effects.push(Effect::RebuildCache);
        let reopen = !same_keys(&self.config.keys, &new.keys) || !same_text(
            &self.config.device_path,
            &new.device_path,
        );
        let resuppress = self.config.suppress != new.suppress;
        self.config = new;
        if reopen {
            effects.push(Effect::Apply(apply_off(&self.config)));
            effects.push(Effect::OpenSession);
            self.active = false;
            self.pressed.clear();
            self.forwarder.clear();
        } else if resuppress {
            effects.push(Effect::Resuppress);
            self.forwarder.clear();
        }
        let ghost session = effects_view(effects@);
        let ghost active = self.active;
        self.refresh_active_state(&mut effects);
        proof {
            let after = reload_state(old(self)@, new@);
            assert(session =~= seq![EffectView::RebuildCache] + if reopen {
                seq![EffectView::Apply(command_for(new@, false)), EffectView::OpenSession]
            } else if resuppress {
                seq![EffectView::Resuppress]
            } else {
                Seq::<EffectView>::empty()
            });
            assert(effects_view(effects@) == session + switch_to(new@, active, after.active));
        }
        effects
    }

    /// The last effect of every run, however it ended: the microphone is forced off.
    pub fn shutdown(&self) -> (effects: Vec<Effect>)
        ensures
            effects_view(effects@) == seq![EffectView::Apply(command_for(self@.config, false))],
    {
        let mut effects: Vec<Effect> = Vec::new();
        effects.push(Effect::Apply(apply_off(&self.config)));
        assert(effects_view(effects@) =~= seq![
            EffectView::Apply(command_for(self@.config, false)),
        ]);
        effects
    }
}

/// After any key event the activation is the one the held keys call for.
pub proof fn key_event_reconciles(state: EngineView, key: u16, value: i32)
    ensures
        reconciled(key_step(state, key, value).0),
{
}

/// A key event asks for a transition exactly when the wanted activation
/// differs from the current one, and then for exactly one: the same desire
/// again asks for nothing.
pub proof fn transition_only_on_change(state: EngineView, key: u16, value: i32)
    ensures
        ({
            let (after, effects) = key_step(state, key, value);
            &&& after.active == state.active ==> effects.len() == 0
            &&& after.active != state.active ==> effects == seq![
                EffectView::Switch(after.active, command_for(state.config, after.active)),
            ]
        }),
{
}

/// A transition that failed is asked for again by the next key event that
/// leaves the wanted activation where it was.
pub proof fn failed_transition_is_retried(state: EngineView, key: u16, value: i32)
    requires
        reconciled(state),
        activation_wanted(
            state.config.keys,
            state.config.reverse,
            pressed_after(state.pressed, key, value),
        ) == state.active,
    ensures
        key_step(EngineView { active: !state.active, ..state }, key, value).1 == seq![
            EffectView::Switch(state.active, command_for(state.config, state.active)),
        ],
{
}

/// An event that is no key event changes neither the held keys nor the activation.
pub proof fn other_events_leave_activation(state: EngineView, event: RawEvent)
    requires
        !(event_class(event) is Key),
    ensures
        event_step(state, event).0.pressed == state.pressed,
        event_step(state, event).0.active == state.active,
        event_step(state, event).0.config == state.config,
{
}

/// No step on events changes the snapshot in force.
pub proof fn events_keep_snapshot(state: EngineView, events: Seq<RawEvent>)
    ensures
        run_events(state, events).0.config == state.config,
    decreases events.len(),
{
    if events.len() > 0 {
        events_keep_snapshot(state, events.drop_last());
    }
}

/// A state whose activation is the wanted one stays so through any batch.
pub proof fn events_keep_reconciled(state: EngineView, events: Seq<RawEvent>)
    requires
        reconciled(state),
    ensures
        reconciled(run_events(state, events).0),
    decreases events.len(),
{
    if events.len() > 0 {
        events_keep_reconciled(state, events.drop_last());
    }
}

/// How the events are cut into batches does not matter: two batches one
/// after the other do what the one batch of all their events does.
pub proof fn batches_compose(state: EngineView, first: Seq<RawEvent>, second: Seq<RawEvent>)
    ensures
        ({
            let (middle, done) = run_events(state, first);
            let (end, more) = run_events(middle, second);
            run_events(state, first + second) == (end, done + more)
        }),
    decreases second.len(),
{
    let (middle, done) = run_events(state, first);
    if second.len() == 0 {
        assert(first + second =~= first);
        assert(done + Seq::<EffectView>::empty() =~= done);
    } else {
        batches_compose(state, first, second.drop_last());
        assert((first + second).drop_last() =~= first + second.drop_last());
        assert((first + second).last() == second.last());
        let (before, more) = run_events(middle, second.drop_last());
        let (after, last) = event_step(before, second.last());
        assert(done + (more + last) =~= (done + more) + last);
    }
}

/// Losing the device forces the microphone off at once, and when a session
/// is opened again, however many attempts that took, no key is held.
pub proof fn recovery_forgets_keys(state: EngineView)
    ensures
        lost_effects(state)[0] == EffectView::Apply(command_for(state.config, false)),
        lost_effects(state)[1] == EffectView::OpenSession,
        !lost_state(state).active,
        lost_state(state).pressed == Set::<u16>::empty(),
        opened_state(lost_state(state)).pressed == Set::<u16>::empty(),
        opened_state(lost_state(state)).config == state.config,
{
}

/// A new snapshot with the same chord and the same device selector keeps
/// the session: no session is opened, and the held keys survive.
pub proof fn reload_keeps_session(state: EngineView, new: ConfigView)
    requires
        new.keys == state.config.keys,
        new.device_path == state.config.device_path,
    ensures
        reload_state(state, new).pressed == state.pressed,
        forall|i: int|
            0 <= i < reload_effects(state, new).len() ==> #[trigger] reload_effects(state, new)[i]
                != EffectView::OpenSession,
{
}

/// A new snapshot that differs in the sound volume alone changes nothing
/// but the snapshot: held keys, activation and waiting events survive, and
/// only the sound cache is rebuilt.
pub proof fn volume_change_keeps_state(state: EngineView, new: ConfigView)
    requires
        reconciled(state),
        new == (ConfigView { sound_volume: new.sound_volume, ..state.config }),
    ensures
        reload_state(state, new) == (EngineView { config: new, ..state }),
        reload_effects(state, new) == seq![EffectView::RebuildCache],
{
    assert(reload_effects(state, new) =~= seq![EffectView::RebuildCache]);
}

/// A new device selector rebuilds the session: the microphone is forced
/// off, a session is opened, no key is held any more, and the activation is
/// the one that an idle chord calls for.
pub proof fn selector_change_rebuilds(state: EngineView, new: ConfigView)
    requires
        new.device_path != state.config.device_path,
    ensures
        reload_state(state, new).pressed == Set::<u16>::empty(),
        reload_state(state, new).pending == Seq::<RawEvent>::empty(),
        reload_state(state, new).active == activation_wanted(
            new.keys,
            new.reverse,
            Set::<u16>::empty(),
        ),
        reload_effects(state, new)[0] == EffectView::RebuildCache,
        reload_effects(state, new)[1] == EffectView::Apply(command_for(new, false)),
        reload_effects(state, new)[2] == EffectView::OpenSession,
{
}

/// A new chord rebuilds the session in the same way.
pub proof fn chord_change_rebuilds(state: EngineView, new: ConfigView)
    requires
        new.keys != state.config.keys,
    ensures
        reload_state(state, new).pressed == Set::<u16>::empty(),
        reload_effects(state, new)[1] == EffectView::Apply(command_for(new, false)),
        reload_effects(state, new)[2] == EffectView::OpenSession,
{
}

/// After a reload the new snapshot is in force as a whole and the
/// activation is the one it calls for.
pub proof fn reload_reconciles(state: EngineView, new: ConfigView)
    ensures
        reload_state(state, new).config == new,
        reconciled(reload_state(state, new)),
{
}

/// The engine starts reconciled, and for a chord of at least one key its
/// first activation is the reverse flag.
pub proof fn start_is_reconciled(config: ConfigView)
    ensures
        reconciled(initial_state(config)),
        config.keys.len() >= 1 ==> initial_state(config).active == config.reverse,
{
    if config.keys.len() >= 1 {
        assert(!Set::<u16>::empty().contains(config.keys[0]));
    }
}

/// While the device is grabbed the loop polls more often.
pub proof fn grabbed_polls_faster()
    ensures
        POLL_INTERVAL_SUPPRESS_MS < POLL_INTERVAL_MS,
{
}

} // verus!
