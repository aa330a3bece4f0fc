//! The stored form of the configuration, and the way to and from a snapshot.
//!
//! Reading and writing the file is the caller's business. Here the stored
//! values are turned into a snapshot and back.

use crate::config::{
    chosen_sound, mode_label, mode_of_text, mode_text, parse_mode, parse_sound_setting,
    parse_startup_state, setting_view, sound_setting_value, startup_state_label,
    startup_state_of_text, startup_state_text, stored_sound, text_view, Config, ConfigError,
    ConfigErrorView, ConfigView, Level, SoundChoice, SoundChoiceView, SoundSettingValue,
    SoundSettingView, LEVEL_ONE_BITS, LEVEL_ZERO_BITS,
};
use crate::keys::{default_key, evdev_key_code, key_label, key_of, label_of, parse_key};
use crate::text::string_texts;
use vstd::prelude::*;

verus! {

/// The configuration as the file holds it.
#[derive(Clone, Debug)]
pub struct PersistedConfig {
    pub keys: Vec<String>,
    pub device_path: Option<String>,
    pub mode: String,
    pub on_level: Level,
    pub off_level: Level,
    pub sounds: bool,
    pub sound_on: Option<SoundSettingValue>,
    pub sound_off: Option<SoundSettingValue>,
    pub sound_volume: Level,
    pub startup_state: String,
    pub reverse: bool,
    pub suppress: bool,
}

/// Mathematical form of a [`PersistedConfig`].
pub struct PersistedView {
    pub keys: Seq<Seq<char>>,
    pub device_path: Option<Seq<char>>,
    pub mode: Seq<char>,
    pub on_level: Level,
    pub off_level: Level,
    pub sounds: bool,
    pub sound_on: Option<SoundSettingView>,
    pub sound_off: Option<SoundSettingView>,
    pub sound_volume: Level,
    pub startup_state: Seq<char>,
    pub reverse: bool,
    pub suppress: bool,
}

impl View for PersistedConfig {
    type V = PersistedView;

    open spec fn view(&self) -> PersistedView {
        PersistedView {
            keys: string_texts(self.keys@),
            device_path: text_view(self.device_path),
            mode: self.mode@,
            on_level: self.on_level,
            off_level: self.off_level,
            sounds: self.sounds,
            sound_on: setting_view(self.sound_on),
            sound_off: setting_view(self.sound_off),
            sound_volume: self.sound_volume,
            startup_state: self.startup_state@,
            reverse: self.reverse,
            suppress: self.suppress,
        }
    }
}

/// The stored configuration of a fresh installation.
pub open spec fn default_persisted() -> PersistedView {
    PersistedView {
        keys: seq!["BTN_EXTRA"@],
        device_path: None,
        mode: "volume"@,
        on_level: Level { bits: LEVEL_ONE_BITS },
        off_level: Level { bits: LEVEL_ZERO_BITS },
        sounds: true,
        sound_on: None,
        sound_off: None,
        sound_volume: Level { bits: LEVEL_ONE_BITS },
        startup_state: "muted"@,
        reverse: false,
        suppress: false,
    }
}

impl Default for PersistedConfig {
    fn default() -> (fresh: Self)
        ensures
            fresh@ == default_persisted(),
    {
        let mut keys: Vec<String> = Vec::new();
        keys.push("BTN_EXTRA".to_owned());
        let fresh = PersistedConfig {
            keys,
            device_path: None,
            mode: "volume".to_owned(),
            on_level: Level { bits: LEVEL_ONE_BITS },
            off_level: Level { bits: LEVEL_ZERO_BITS },
            sounds: true,
            sound_on: None,
            sound_off: None,
            sound_volume: Level { bits: LEVEL_ONE_BITS },
            startup_state: "muted".to_owned(),
            reverse: false,
            suppress: false,
        };
        assert(string_texts(fresh.keys@) =~= seq!["BTN_EXTRA"@]);
        fresh
    }
}

/// The labels of a chord's keys.
pub open spec fn labels_of(keys: Seq<u16>) -> Seq<Seq<char>> {
    keys.map_values(|key: u16| label_of(key))
}

/// The stored form of a snapshot.
pub open spec fn persisted_of(config: ConfigView) -> PersistedView {
    PersistedView {
        keys: labels_of(config.keys),
        device_path: config.device_path,
        mode: mode_text(config.mode),
        on_level: config.on_level,
        off_level: config.off_level,
        sounds: config.sounds,
        sound_on: stored_sound(config.sound_on),
        sound_off: stored_sound(config.sound_off),
        sound_volume: config.sound_volume,
        startup_state: startup_state_text(config.startup_state),
        reverse: config.reverse,
        suppress: config.suppress,
    }
}

/// The keys that a list of names stands for, or the first name that names no key.
pub open spec fn named_keys(names: Seq<Seq<char>>) -> Result<Seq<u16>, Seq<char>>
    decreases names.len(),
{
    if names.len() == 0 {
        Ok(Seq::empty())
    } else {
        match named_keys(names.drop_last()) {
            Err(unknown) => Err(unknown),
            Ok(keys) => match key_of(names.last()) {
                Some(code) => Ok(keys.push(code)),
                None => Err(names.last()),
            },
        }
    }
}

/// The chord that stands in for an empty one: the key that evdev's name
/// table gives for `BTN_EXTRA`.
pub open spec fn default_chord() -> Seq<u16> {
    match evdev_key_code("BTN_EXTRA"@) {
        Some(code) => seq![code],
        None => Seq::empty(),
    }
}

/// The chord of a stored configuration: its keys, or the default chord
/// where it names none.
pub open spec fn stored_chord(names: Seq<Seq<char>>) -> Result<Seq<u16>, Seq<char>> {
    match named_keys(names) {
        Err(unknown) => Err(unknown),
        Ok(keys) => if keys.len() == 0 {
            Ok(default_chord())
        } else {
            Ok(keys)
        },
    }
}

/// The snapshot that a stored configuration stands for, or the first thing
/// wrong with it: an unknown key, then the mode, then the startup state.
pub open spec fn config_of(base: PersistedView) -> Result<ConfigView, ConfigErrorView> {
    match stored_chord(base.keys) {
        Err(unknown) => Err(ConfigErrorView::UnknownKey(unknown)),
        Ok(keys) => match mode_of_text(base.mode) {
            None => Err(ConfigErrorView::InvalidMode(base.mode)),
            Some(mode) => match startup_state_of_text(base.startup_state) {
                None => Err(ConfigErrorView::InvalidStartupState(base.startup_state)),
                Some(startup_state) => Ok(
                    ConfigView {
                        keys,
                        device_path: base.device_path,
                        mode,
                        on_level: base.on_level,
                        off_level: base.off_level,
                        sounds: base.sounds,
                        sound_on: chosen_sound(base.sound_on),
                        sound_off: chosen_sound(base.sound_off),
                        sound_volume: base.sound_volume,
                        list_keys: false,
                        list_devices: false,
                        print_config: false,
                        dry_run: false,
                        startup_state,
                        reverse: base.reverse,
                        suppress: base.suppress,
                    },
                ),
            },
        },
    }
}

/// What a check of the sound files finds: the file for switching on is
/// looked at first.
pub open spec fn sound_files_checked(config: ConfigView, on_exists: bool, off_exists: bool) -> Result<
    (),
    ConfigErrorView,
> {
    match config.sound_on {
        SoundChoiceView::File(path) if !on_exists => Err(ConfigErrorView::MissingSoundOn(path)),
        _ => match config.sound_off {
            SoundChoiceView::File(path) if !off_exists => Err(
                ConfigErrorView::MissingSoundOff(path),
            ),
            _ => Ok(()),
        },
    }
}

/// A copy of an optional text.
pub fn clone_text(text: &Option<String>) -> (copy: Option<String>)
    ensures
        text_view(copy) == text_view(*text),
{
    match text {
        Some(t) => Some(t.clone()),
        None => None,
    }
}

/// The stored form of a snapshot: keys by their labels, mode and startup
/// state by their words, sounds by their stored settings.
pub fn persisted_from_config(config: &Config) -> (stored: PersistedConfig)
    ensures
        stored@ == persisted_of(config@),
{
    let mut keys: Vec<String> = Vec::new();
    let mut i: usize = 0;
    while i < config.keys.len()
        invariant
            i <= config.keys.len(),
            keys@.len() == i,
            string_texts(keys@) == labels_of(config.keys@.take(i as int)),
        decreases config.keys.len() - i,
    {
        let ghost before = keys@;
        keys.push(key_label(config.keys[i]));
        proof {
            let now = string_texts(keys@);
            let goal = labels_of(config.keys@.take(i + 1));
            assert(now.len() == goal.len());
            assert forall|j: int| 0 <= j < i + 1 implies now[j] == goal[j] by {
                if j < i {
                    assert(keys@[j] == before[j]);
                    assert(string_texts(before)[j] == labels_of(config.keys@.take(i as int))[j]);
                    assert(config.keys@.take(i as int)[j] == config.keys@.take(i + 1)[j]);
                }
            }
            assert(now =~= goal);
        }
        i += 1;
    }
    assert(config.keys@.take(i as int) =~= config.keys@);
    PersistedConfig {
        keys,
        device_path: clone_text(&config.device_path),
        mode: mode_label(config.mode).to_owned(),
        on_level: config.on_level,
        off_level: config.off_level,
        sounds: config.sounds,
        sound_on: sound_setting_value(&config.sound_on),
        sound_off: sound_setting_value(&config.sound_off),
        sound_volume: config.sound_volume,
        startup_state: startup_state_label(config.startup_state).to_owned(),
        reverse: config.reverse,
        suppress: config.suppress,
    }
}

/// Reads the keys of a stored configuration; an empty list stands for the
/// default key, so the chord that is read is never empty.
pub fn stored_keys(names: &Vec<String>) -> (parsed: Result<Vec<u16>, ConfigError>)
    ensures
        match stored_chord(string_texts(names@)) {
            Ok(keys) => parsed is Ok && parsed->Ok_0@ == keys,
            Err(unknown) => parsed is Err && parsed->Err_0@ == ConfigErrorView::UnknownKey(unknown),
        },
        parsed is Ok ==> parsed->Ok_0@.len() >= 1,
{
    let fallback = default_key();
    let mut keys: Vec<u16> = Vec::new();
    let mut i: usize = 0;
    assert(string_texts(names@).take(0) =~= Seq::<Seq<char>>::empty());
    while i < names.len()
        invariant
            i <= names.len(),
            evdev_key_code("BTN_EXTRA"@) == Some(fallback),
            named_keys(string_texts(names@).take(i as int)) == Ok::<Seq<u16>, Seq<char>>(keys@),
        decreases names.len() - i,
    {
        let ghost texts = string_texts(names@);
        proof {
            assert(texts.take(i + 1).drop_last() =~= texts.take(i as int));
            assert(texts.take(i + 1).last() == names@[i as int]@);
        }
        match parse_key(names[i].as_str()) {
            Ok(code) => {
                keys.push(code);
            },
            Err(_) => {
                proof {
                    named_keys_fail_early(texts, i + 1);
                }
                return Err(ConfigError::UnknownKey(names[i].clone()));
            },
        }
        i += 1;
    }
    assert(string_texts(names@).take(i as int) =~= string_texts(names@));
    if keys.len() == 0 {
        keys.push(fallback);
        assert(keys@ =~= seq![fallback]);
    }
    Ok(keys)
}

/// Once a name has failed, the whole list fails with that name.
pub proof fn named_keys_fail_early(names: Seq<Seq<char>>, upto: int)
    requires
        0 <= upto <= names.len(),
        named_keys(names.take(upto)) is Err,
    ensures
        named_keys(names) == named_keys(names.take(upto)),
    decreases names.len() - upto,
{
    if upto < names.len() {
        assert(names.take(upto + 1).drop_last() =~= names.take(upto));
        named_keys_fail_early(names, upto + 1);
    } else {
        assert(names.take(upto) =~= names);
    }
}

/// Turns a stored configuration into a snapshot. The first thing wrong
/// with it is reported: an unknown key, an unknown mode, an unknown startup
/// state, in this order. Whether its sound files exist is not looked at.
/// The snapshot's chord has at least one key.
pub fn config_from_persisted(base: PersistedConfig) -> (made: Result<Config, ConfigError>)
    ensures
        match config_of(base@) {
            Ok(config) => made is Ok && made->Ok_0@ == config,
            Err(error) => made is Err && made->Err_0@ == error,
        },
        made is Ok ==> made->Ok_0.wf(),
{
    let keys = match stored_keys(&base.keys) {
        Ok(keys) => keys,
        Err(error) => {
            return Err(error);
        },
    };
    let mode = match parse_mode(base.mode.as_str()) {
        Ok(mode) => mode,
        Err(error) => {
            return Err(error);
        },
    };
    let startup_state = match parse_startup_state(base.startup_state.as_str()) {
        Ok(state) => state,
        Err(error) => {
            return Err(error);
        },
    };
    Ok(
        Config {
            keys,
            device_path: base.device_path,
            mode,
            reverse: base.reverse,
            on_level: base.on_level,
            off_level: base.off_level,
            sounds: base.sounds,
            sound_on: parse_sound_setting(base.sound_on),
            sound_off: parse_sound_setting(base.sound_off),
            sound_volume: base.sound_volume,
            list_keys: false,
            list_devices: false,
            print_config: false,
            dry_run: false,
            startup_state,
            suppress: base.suppress,
        },
    )
}

/// Checks the sound files of a snapshot, given whether the file for each
/// edge exists: a chosen file that does not exist is an error, the one for
/// switching on first. The flags are read only where a file is chosen.
pub fn check_sound_files(config: &Config, on_exists: bool, off_exists: bool) -> (checked: Result<
    (),
    ConfigError,
>)
    ensures
        match sound_files_checked(config@, on_exists, off_exists) {
            Ok(()) => checked is Ok,
            Err(error) => checked is Err && checked->Err_0@ == error,
        },
{
    if let SoundChoice::File(path) = &config.sound_on {
        if !on_exists {
            return Err(ConfigError::MissingSoundOn(path.clone()));
        }
    }
    if let SoundChoice::File(path) = &config.sound_off {
        if !off_exists {
            return Err(ConfigError::MissingSoundOff(path.clone()));
        }
    }
    Ok(())
}

} // verus!
