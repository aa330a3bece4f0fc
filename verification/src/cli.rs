//! The command line: how the arguments change the stored configuration.
//!
//! The caller collects the arguments. Since levels are carried as bit
//! patterns, the caller also reads each argument as a level where it can
//! and hands the reading along with the text.

use crate::config::{
    mode_of_text, parse_mode, parse_startup_state, startup_state_of_text, str_eq, Config,
    ConfigError, ConfigErrorView, ConfigView, Level, Mode, SoundChoice, SoundChoiceView,
    StartupState,
};
use crate::keys::{chord_is_never_empty, keys_of, parse_keys, to_ascii_uppercase, upper_text};
use crate::persisted::{config_from_persisted, config_of, PersistedConfig, PersistedView};
use vstd::prelude::*;

verus! {

/// One argument of the command line.
#[derive(Clone, Debug)]
pub struct Arg {
    /// The argument as it was given.
    pub text: String,
    /// The level that the argument writes, if it writes one.
    pub level: Option<Level>,
}

/// Mathematical form of an [`Arg`].
pub struct ArgView {
    pub text: Seq<char>,
    pub level: Option<Level>,
}

impl View for Arg {
    type V = ArgView;

    open spec fn view(&self) -> ArgView {
        ArgView { text: self.text@, level: self.level }
    }
}

/// Mathematical form of a list of arguments.
pub open spec fn args_view(args: Seq<Arg>) -> Seq<ArgView> {
    args.map_values(|arg: Arg| arg@)
}

/// What the command line asks for.
#[derive(Debug)]
pub enum ParsedArgs {
    /// Show the help text and stop.
    Help,
    /// Run with this snapshot; the flag tells whether an argument changed
    /// a setting that is stored.
    Run(Config, bool),
}

/// Mathematical form of [`ParsedArgs`].
pub enum ParsedView {
    Help,
    Run(ConfigView, bool),
}

impl View for ParsedArgs {
    type V = ParsedView;

    open spec fn view(&self) -> ParsedView {
        match self {
            ParsedArgs::Help => ParsedView::Help,
            ParsedArgs::Run(config, changed) => ParsedView::Run(config@, *changed),
        }
    }
}

/// The state of a scan over the arguments.
pub struct Scan {
    pub config: Config,
    /// A chord was given; further chords add to it.
    pub key_set: bool,
    /// A startup state was given.
    pub startup_state_set: bool,
    /// A stored setting was given.
    pub persist_changed: bool,
}

/// Mathematical form of a [`Scan`].
pub struct ScanView {
    pub config: ConfigView,
    pub key_set: bool,
    pub startup_state_set: bool,
    pub persist_changed: bool,
}

impl View for Scan {
    type V = ScanView;

    open spec fn view(&self) -> ScanView {
        ScanView {
            config: self.config@,
            key_set: self.key_set,
            startup_state_set: self.startup_state_set,
            persist_changed: self.persist_changed,
        }
    }
}

/// What one argument does to a scan.
pub enum StepView {
    /// The scan goes on in this state at this position.
    Next(ScanView, int),
    /// Help was asked for.
    Help,
    /// The argument is wrong.
    Fail(ConfigErrorView),
}

/// The value of the option at `at`: the argument behind it, if there is one.
pub open spec fn value_at(args: Seq<ArgView>, at: int) -> Option<ArgView> {
    if at + 1 < args.len() {
        Some(args[at + 1])
    } else {
        None
    }
}

/// The sound that the value of a sound option chooses: `false` in any case
/// and `0` switch the sound off, anything else is a file.
pub open spec fn sound_of_value(value: Seq<char>) -> SoundChoiceView {
    if upper_text(value) == "FALSE"@ || value == "0"@ {
        SoundChoiceView::Disabled
    } else {
        SoundChoiceView::File(value)
    }
}

/// A scan in which a stored setting was changed.
pub open spec fn changed(state: ScanView, config: ConfigView) -> ScanView {
    ScanView { config, persist_changed: true, ..state }
}

/// An option that takes a value.
#[derive(Copy, Clone, Debug, PartialEq, Eq, Structural)]
pub enum ValueOption {
    Key,
    Device,
    Mode,
    OnLevel,
    OffLevel,
    SoundOn,
    SoundOff,
    SoundVolume,
    StartupState,
}

/// A switch without a value.
#[derive(Copy, Clone, Debug, PartialEq, Eq, Structural)]
pub enum Switch {
    Reverse(bool),
    Sounds(bool),
    Suppress(bool),
    ListKeys,
    ListDevices,
    PrintConfig,
    DryRun,
}

/// What an argument is when it stands where an option is expected.
#[derive(Copy, Clone, Debug, PartialEq, Eq, Structural)]
pub enum Flag {
    Help,
    Value(ValueOption),
    Switch(Switch),
    Unknown,
}

/// The option that an argument names.
pub open spec fn flag_of(text: Seq<char>) -> Flag {
    if text == "-h"@ || text == "--help"@ {
        Flag::Help
    } else if text == "--key"@ {
        Flag::Value(ValueOption::Key)
    } else if text == "--device"@ {
        Flag::Value(ValueOption::Device)
    } else if text == "--mode"@ {
        Flag::Value(ValueOption::Mode)
    } else if text == "--reverse"@ {
        Flag::Switch(Switch::Reverse(true))
    } else if text == "--no-reverse"@ {
        Flag::Switch(Switch::Reverse(false))
    } else if text == "--on-level"@ {
        Flag::Value(ValueOption::OnLevel)
    } else if text == "--off-level"@ {
        Flag::Value(ValueOption::OffLevel)
    } else if text == "--sound-on"@ {
        Flag::Value(ValueOption::SoundOn)
    } else if text == "--sound-off"@ {
        Flag::Value(ValueOption::SoundOff)
    } else if text == "--sound-volume"@ {
        Flag::Value(ValueOption::SoundVolume)
    } else if text == "--startup-state"@ {
        Flag::Value(ValueOption::StartupState)
    } else if text == "--sounds"@ {
        Flag::Switch(Switch::Sounds(true))
    } else if text == "--no-sounds"@ {
        Flag::Switch(Switch::Sounds(false))
    } else if text == "--suppress"@ {
        Flag::Switch(Switch::Suppress(true))
    } else if text == "--no-suppress"@ {
        Flag::Switch(Switch::Suppress(false))
    } else if text == "--list-keys"@ {
        Flag::Switch(Switch::ListKeys)
    } else if text == "--list-devices"@ {
        Flag::Switch(Switch::ListDevices)
    } else if text == "--print-config"@ {
        Flag::Switch(Switch::PrintConfig)
    } else if text == "--dry-run"@ {
        Flag::Switch(Switch::DryRun)
    } else {
        Flag::Unknown
    }
}

/// The scan after a level option, or the failure if the value writes no level.
pub open spec fn level_step(
    state: ScanView,
    flag: Seq<char>,
    value: ArgView,
    set: spec_fn(Level) -> ConfigView,
    next: int,
) -> StepView {
    match value.level {
        None => StepView::Fail(ConfigErrorView::InvalidLevel(flag, value.text)),
        Some(level) => StepView::Next(changed(state, set(level)), next),
    }
}

/// What an option with a value does, given the option as written and its value.
pub open spec fn value_step(
    state: ScanView,
    option: ValueOption,
    flag: Seq<char>,
    value: ArgView,
    next: int,
) -> StepView {
    let config = state.config;
    match option {
        ValueOption::Key => match keys_of(value.text) {
            Err(unknown) => StepView::Fail(ConfigErrorView::UnknownKey(unknown)),
            Ok(keys) => StepView::Next(
                ScanView {
                    config: ConfigView {
                        keys: if state.key_set {
                            config.keys + keys
                        } else {
                            keys
                        },
                        ..config
                    },
                    key_set: true,
                    persist_changed: true,
                    ..state
                },
                next,
            ),
        },
        ValueOption::Device => StepView::Next(
            changed(state, ConfigView { device_path: Some(value.text), ..config }),
            next,
        ),
        ValueOption::Mode => match mode_of_text(value.text) {
            None => StepView::Fail(ConfigErrorView::InvalidMode(value.text)),
            Some(mode) => StepView::Next(changed(state, ConfigView { mode, ..config }), next),
        },
        ValueOption::OnLevel => level_step(
            state,
            flag,
            value,
            |on_level: Level| ConfigView { on_level, ..config },
            next,
        ),
        ValueOption::OffLevel => level_step(
            state,
            flag,
            value,
            |off_level: Level| ConfigView { off_level, ..config },
            next,
        ),
        ValueOption::SoundOn => StepView::Next(
            changed(state, ConfigView { sound_on: sound_of_value(value.text), ..config }),
            next,
        ),
        ValueOption::SoundOff => StepView::Next(
            changed(state, ConfigView { sound_off: sound_of_value(value.text), ..config }),
            next,
        ),
        ValueOption::SoundVolume => level_step(
            state,
            flag,
            value,
            |sound_volume: Level| ConfigView { sound_volume, ..config },
            next,
        ),
        ValueOption::StartupState => match startup_state_of_text(value.text) {
            None => StepView::Fail(ConfigErrorView::InvalidStartupState(value.text)),
            Some(startup_state) => StepView::Next(
                ScanView {
                    config: ConfigView { startup_state, ..config },
                    startup_state_set: true,
                    persist_changed: true,
                    ..state
                },
                next,
            ),
        },
    }
}

/// What a switch does. The switches that only ask for a listing or a dry
/// run change no stored setting.
pub open spec fn switch_step(state: ScanView, switch: Switch) -> ScanView {
    let config = state.config;
    match switch {
        Switch::Reverse(reverse) => changed(state, ConfigView { reverse, ..config }),
        Switch::Sounds(sounds) => changed(state, ConfigView { sounds, ..config }),
        Switch::Suppress(suppress) => changed(state, ConfigView { suppress, ..config }),
        Switch::ListKeys => ScanView { config: ConfigView { list_keys: true, ..config }, ..state },
        Switch::ListDevices => ScanView {
            config: ConfigView { list_devices: true, ..config },
            ..state
        },
        Switch::PrintConfig => ScanView {
            config: ConfigView { print_config: true, ..config },
            ..state
        },
        Switch::DryRun => ScanView { config: ConfigView { dry_run: true, ..config }, ..state },
    }
}

/// What the argument at `at` does to a scan.
pub open spec fn arg_step(state: ScanView, args: Seq<ArgView>, at: int) -> StepView {
    let flag = args[at].text;
    match flag_of(flag) {
        Flag::Help => StepView::Help,
        Flag::Value(option) => match value_at(args, at) {
            None => StepView::Fail(ConfigErrorView::MissingValue(flag)),
            Some(value) => value_step(state, option, flag, value, at + 2),
        },
        Flag::Switch(switch) => StepView::Next(switch_step(state, switch), at + 1),
        Flag::Unknown => StepView::Fail(ConfigErrorView::UnknownArgument(flag)),
    }
}

/// The scan from position `at` to the end: the state at the end, nothing
/// if help was asked for on the way, or the first wrong argument.
pub open spec fn scan_from(state: ScanView, args: Seq<ArgView>, at: int) -> Result<
    Option<ScanView>,
    ConfigErrorView,
>
    decreases args.len() - at,
{
    if at < 0 || at >= args.len() {
        Ok(Some(state))
    } else {
        match arg_step(state, args, at) {
            StepView::Help => Ok(None),
            StepView::Fail(error) => Err(error),
            StepView::Next(after, next) => if next > at {
                scan_from(after, args, next)
            } else {
                Ok(Some(after))
            },
        }
    }
}

/// What a finished scan asks for: where reversal is on and no startup
/// state was given, the microphone starts unmuted.
pub open spec fn finished(state: ScanView) -> ParsedView {
    ParsedView::Run(
        ConfigView {
            startup_state: if state.config.reverse && !state.startup_state_set {
                StartupState::Unmuted
            } else {
                state.config.startup_state
            },
            ..state.config
        },
        state.persist_changed,
    )
}

/// What the end of a scan asks for.
pub open spec fn scan_outcome(scanned: Result<Option<ScanView>, ConfigErrorView>) -> Result<
    ParsedView,
    ConfigErrorView,
> {
    match scanned {
        Err(error) => Err(error),
        Ok(None) => Ok(ParsedView::Help),
        Ok(Some(state)) => Ok(finished(state)),
    }
}

/// What a stored configuration and a command line ask for together.
pub open spec fn parsed_args(base: PersistedView, args: Seq<ArgView>) -> Result<
    ParsedView,
    ConfigErrorView,
> {
    match config_of(base) {
        Err(error) => Err(error),
        Ok(config) => scan_outcome(scan_from(scan_start(config), args, 0)),
    }
}

/// The option that an argument names.
pub fn classify_flag(text: &str) -> (flag: Flag)
    ensures
        flag == flag_of(text@),
{
    if str_eq(text, "-h") || str_eq(text, "--help") {
        Flag::Help
    } else if str_eq(text, "--key") {
        Flag::Value(ValueOption::Key)
    } else if str_eq(text, "--device") {
        Flag::Value(ValueOption::Device)
    } else if str_eq(text, "--mode") {
        Flag::Value(ValueOption::Mode)
    } else if str_eq(text, "--reverse") {
        Flag::Switch(Switch::Reverse(true))
    } else if str_eq(text, "--no-reverse") {
        Flag::Switch(Switch::Reverse(false))
    } else if str_eq(text, "--on-level") {
        Flag::Value(ValueOption::OnLevel)
    } else if str_eq(text, "--off-level") {
        Flag::Value(ValueOption::OffLevel)
    } else if str_eq(text, "--sound-on") {
        Flag::Value(ValueOption::SoundOn)
    } else if str_eq(text, "--sound-off") {
        Flag::Value(ValueOption::SoundOff)
    } else if str_eq(text, "--sound-volume") {
        Flag::Value(ValueOption::SoundVolume)
    } else if str_eq(text, "--startup-state") {
        Flag::Value(ValueOption::StartupState)
    } else if str_eq(text, "--sounds") {
        Flag::Switch(Switch::Sounds(true))
    } else if str_eq(text, "--no-sounds") {
        Flag::Switch(Switch::Sounds(false))
    } else if str_eq(text, "--suppress") {
        Flag::Switch(Switch::Suppress(true))
    } else if str_eq(text, "--no-suppress") {
        Flag::Switch(Switch::Suppress(false))
    } else if str_eq(text, "--list-keys") {
        Flag::Switch(Switch::ListKeys)
    } else if str_eq(text, "--list-devices") {
        Flag::Switch(Switch::ListDevices)
    } else if str_eq(text, "--print-config") {
        Flag::Switch(Switch::PrintConfig)
    } else if str_eq(text, "--dry-run") {
        Flag::Switch(Switch::DryRun)
    } else {
        Flag::Unknown
    }
}

/// The sound that the value of a sound option chooses.
pub fn sound_from_value(value: &str) -> (choice: SoundChoice)
    ensures
        choice@ == sound_of_value(value@),
{
    let upper = to_ascii_uppercase(value);
    if str_eq(upper.as_str(), "FALSE") || str_eq(value, "0") {
        SoundChoice::Disabled
    } else {
        SoundChoice::File(value.to_owned())
    }
}

impl Scan {
    /// Adds a chord: the first one given replaces the stored chord.
    fn add_keys(&mut self, keys: Vec<u16>)
        ensures
            final(self)@ == (ScanView {
                config: ConfigView {
                    keys: if old(self).key_set {
                        old(self)@.config.keys + keys@
                    } else {
                        keys@
                    },
                    ..old(self)@.config
                },
                key_set: true,
                persist_changed: true,
                ..old(self)@
            }),
    {
        let mut keys = keys;
        if !self.key_set {
            self.config.keys.clear();
            self.key_set = true;
            assert(Seq::<u16>::empty() + keys@ =~= keys@);
        }
        self.config.keys.append(&mut keys);
        self.persist_changed = true;
    }

    fn set_device(&mut self, path: String)
        ensures
            final(self)@ == changed(
                old(self)@,
                ConfigView { device_path: Some(path@), ..old(self)@.config },
            ),
    {
        self.config.device_path = Some(path);
        self.persist_changed = true;
    }

    fn set_mode(&mut self, mode: Mode)
        ensures
            final(self)@ == changed(old(self)@, ConfigView { mode, ..old(self)@.config }),
    {
        self.config.mode = mode;
        self.persist_changed = true;
    }

    fn set_on_level(&mut self, on_level: Level)
        ensures
            final(self)@ == changed(old(self)@, ConfigView { on_level, ..old(self)@.config }),
    {
        self.config.on_level = on_level;
        self.persist_changed = true;
    }

    fn set_off_level(&mut self, off_level: Level)
        ensures
            final(self)@ == changed(old(self)@, ConfigView { off_level, ..old(self)@.config }),
    {
        self.config.off_level = off_level;
        self.persist_changed = true;
    }

    fn set_sound_volume(&mut self, sound_volume: Level)
        ensures
            final(self)@ == changed(old(self)@, ConfigView { sound_volume, ..old(self)@.config }),
    {
        self.config.sound_volume = sound_volume;
        self.persist_changed = true;
    }

    fn set_sound_on(&mut self, choice: SoundChoice)
        ensures
            final(self)@ == changed(
                old(self)@,
                ConfigView { sound_on: choice@, ..old(self)@.config },
            ),
    {
        self.config.sound_on = choice;
        self.persist_changed = true;
    }

    fn set_sound_off(&mut self, choice: SoundChoice)
        ensures
            final(self)@ == changed(
                old(self)@,
                ConfigView { sound_off: choice@, ..old(self)@.config },
            ),
    {
        self.config.sound_off = choice;
        self.persist_changed = true;
    }

    fn set_startup_state(&mut self, startup_state: StartupState)
        ensures
            final(self)@ == (ScanView {
                config: ConfigView { startup_state, ..old(self)@.config },
                startup_state_set: true,
                persist_changed: true,
                ..old(self)@
            }),
    {
        self.config.startup_state = startup_state;
        self.startup_state_set = true;
        self.persist_changed = true;
    }

    fn set_reverse(&mut self, reverse: bool)
        ensures
            final(self)@ == switch_step(old(self)@, Switch::Reverse(reverse)),
    {
        self.config.reverse = reverse;
        self.persist_changed = true;
    }

    fn set_sounds(&mut self, sounds: bool)
        ensures
            final(self)@ == switch_step(old(self)@, Switch::Sounds(sounds)),
    {
        self.config.sounds = sounds;
        self.persist_changed = true;
    }

    fn set_suppress(&mut self, suppress: bool)
        ensures
            final(self)@ == switch_step(old(self)@, Switch::Suppress(suppress)),
    {
        self.config.suppress = suppress;
        self.persist_changed = true;
    }

    fn set_list_keys(&mut self)
        ensures
            final(self)@ == switch_step(old(self)@, Switch::ListKeys),
    {
        self.config.list_keys = true;
    }

    fn set_list_devices(&mut self)
        ensures
            final(self)@ == switch_step(old(self)@, Switch::ListDevices),
    {
        self.config.list_devices = true;
    }

    fn set_print_config(&mut self)
        ensures
            final(self)@ == switch_step(old(self)@, Switch::PrintConfig),
    {
        self.config.print_config = true;
    }

    fn set_dry_run(&mut self)
        ensures
            final(self)@ == switch_step(old(self)@, Switch::DryRun),
    {
        self.config.dry_run = true;
    }
}

/// Applies an option with a value to the scan.
fn apply_value(state: &mut Scan, option: ValueOption, flag: &str, value: &Arg, next: usize) -> (step:
    Result<usize, ConfigError>)
    ensures
        match value_step(old(state)@, option, flag@, value@, next as int) {
            StepView::Next(after, position) => step == Ok::<usize, ConfigError>(next)
                && final(state)@ == after && position == next,
            StepView::Help => false,
            StepView::Fail(error) => step is Err && step->Err_0@ == error,
        },
{
    match option {
        ValueOption::Key => {
            match parse_keys(value.text.as_str()) {
                Ok(keys) => state.add_keys(keys),
                Err(error) => {
                    return Err(error);
                },
            }
        },
        ValueOption::Device => state.set_device(value.text.clone()),
        ValueOption::Mode => {
            match parse_mode(value.text.as_str()) {
                Ok(mode) => state.set_mode(mode),
                Err(error) => {
                    return Err(error);
                },
            }
        },
        ValueOption::OnLevel => {
            match value.level {
                Some(level) => state.set_on_level(level),
                None => {
                    return Err(ConfigError::InvalidLevel(flag.to_owned(), value.text.clone()));
                },
            }
        },
        ValueOption::OffLevel => {
            match value.level {
                Some(level) => state.set_off_level(level),
                None => {
                    return Err(ConfigError::InvalidLevel(flag.to_owned(), value.text.clone()));
                },
            }
        },
        ValueOption::SoundOn => state.set_sound_on(sound_from_value(value.text.as_str())),
        ValueOption::SoundOff => state.set_sound_off(sound_from_value(value.text.as_str())),
        ValueOption::SoundVolume => {
            match value.level {
                Some(level) => state.set_sound_volume(level),
                None => {
                    return Err(ConfigError::InvalidLevel(flag.to_owned(), value.text.clone()));
                },
            }
        },
        ValueOption::StartupState => {
            match parse_startup_state(value.text.as_str()) {
                Ok(startup_state) => state.set_startup_state(startup_state),
                Err(error) => {
                    return Err(error);
                },
            }
        },
    }
    Ok(next)
}

/// Applies a switch to the scan.
fn apply_switch(state: &mut Scan, switch: Switch)
    ensures
        final(state)@ == switch_step(old(state)@, switch),
{
    match switch {
        Switch::Reverse(reverse) => state.set_reverse(reverse),
        Switch::Sounds(sounds) => state.set_sounds(sounds),
        Switch::Suppress(suppress) => state.set_suppress(suppress),
        Switch::ListKeys => state.set_list_keys(),
        Switch::ListDevices => state.set_list_devices(),
        Switch::PrintConfig => state.set_print_config(),
        Switch::DryRun => state.set_dry_run(),
    }
}

/// An option with a value leaves a chord that was not empty not empty: a
/// chord that is given has at least one key, and no other option touches
/// the chord.
pub proof fn value_step_keeps_chord(
    state: ScanView,
    option: ValueOption,
    flag: Seq<char>,
    value: ArgView,
    next: int,
)
    requires
        state.config.keys.len() >= 1,
    ensures
        value_step(state, option, flag, value, next) matches StepView::Next(after, _)
            ==> after.config.keys.len() >= 1,
{
    chord_is_never_empty(value.text);
}

/// No switch touches the chord.
pub proof fn switch_step_keeps_chord(state: ScanView, switch: Switch)
    ensures
        switch_step(state, switch).config.keys == state.config.keys,
{
}

/// The scan at its start: nothing has been given yet.
pub open spec fn scan_start(config: ConfigView) -> ScanView {
    ScanView { config, key_set: false, startup_state_set: false, persist_changed: false }
}

/// Reads the command line on top of a snapshot. The arguments are taken
/// in order: the first wrong one is reported, and a request for help ends
/// the scan at once. The first chord on the command line replaces the
/// snapshot's chord, later ones add to it, so a chord that was not empty
/// stays so.
pub fn scan_args(config: Config, args: &Vec<Arg>) -> (parsed: Result<ParsedArgs, ConfigError>)
    ensures
        match scan_outcome(scan_from(scan_start(config@), args_view(args@), 0)) {
            Ok(asked) => parsed is Ok && parsed->Ok_0@ == asked,
            Err(error) => parsed is Err && parsed->Err_0@ == error,
        },
        config.wf() ==> (parsed matches Ok(ParsedArgs::Run(made, _)) ==> made.wf()),
{
    let ghost views = args_view(args@);
    let ghost goal = scan_outcome(scan_from(scan_start(config@), views, 0));
    let ghost was_wf = config.wf();
    let mut state = Scan {
        config,
        key_set: false,
        startup_state_set: false,
        persist_changed: false,
    };
    let mut at: usize = 0;
    while at < args.len()
        invariant
            at <= args.len(),
            views == args_view(args@),
            goal == scan_outcome(scan_from(scan_start(config@), views, 0)),
            goal == scan_outcome(scan_from(state@, views, at as int)),
            was_wf ==> state@.config.keys.len() >= 1,
        decreases args.len() - at,
    {
        assert(views[at as int] == args@[at as int]@);
        let flag = args[at].text.as_str();
        match classify_flag(flag) {
            Flag::Help => {
                return Ok(ParsedArgs::Help);
            },
            Flag::Value(option) => {
                if at + 1 >= args.len() {
                    return Err(ConfigError::MissingValue(flag.to_owned()));
                }
                assert(views[at + 1] == args@[at + 1]@);
                proof {
                    if was_wf {
                        value_step_keeps_chord(state@, option, flag@, views[at + 1], at + 2);
                    }
                }
                match apply_value(&mut state, option, flag, &args[at + 1], at + 2) {
                    Ok(next) => {
                        at = next;
                    },
                    Err(error) => {
                        return Err(error);
                    },
                }
            },
            Flag::Switch(switch) => {
                proof {
                    switch_step_keeps_chord(state@, switch);
                }
                apply_switch(&mut state, switch);
                at += 1;
            },
            Flag::Unknown => {
                return Err(ConfigError::UnknownArgument(flag.to_owned()));
            },
        }
    }
    if state.config.reverse && !state.startup_state_set {
        state.config.startup_state = StartupState::Unmuted;
    }
    Ok(ParsedArgs::Run(state.config, state.persist_changed))
}

/// Reads the command line on top of the stored configuration. The stored
/// configuration is checked first; then the arguments are scanned. The
/// snapshot that comes out has a chord of at least one key.
pub fn parse_args(base: PersistedConfig, args: &Vec<Arg>) -> (parsed: Result<ParsedArgs, ConfigError>)
    ensures
        match parsed_args(base@, args_view(args@)) {
            Ok(asked) => parsed is Ok && parsed->Ok_0@ == asked,
            Err(error) => parsed is Err && parsed->Err_0@ == error,
        },
        parsed matches Ok(ParsedArgs::Run(made, _)) ==> made.wf(),
{
    match config_from_persisted(base) {
        Ok(config) => scan_args(config, args),
        Err(error) => Err(error),
    }
}

} // verus!
