//! The lines that show a configuration to the user.
//!
//! Levels are carried as bit patterns, so the caller renders them and
//! hands their texts in; everything else is rendered here.

use crate::config::{
    chosen_sound, mode_label, mode_text, persisted_sound_label, sound_label, sound_text,
    startup_state_label, startup_state_text, text_view, Config, ConfigView,
};
use crate::keys::{key_label, label_of};
use crate::persisted::{labels_of, PersistedConfig, PersistedView};
use crate::text::string_texts;
use vstd::prelude::*;

verus! {

/// The three levels of a configuration as the caller rendered them.
#[derive(Clone, Debug)]
pub struct LevelTexts {
    pub on_level: String,
    pub off_level: String,
    pub sound_volume: String,
}

/// The word for a truth value.
pub open spec fn bool_word(flag: bool) -> Seq<char> {
    if flag {
        "true"@
    } else {
        "false"@
    }
}

/// Texts joined by `+`.
pub open spec fn plus_joined(items: Seq<Seq<char>>) -> Seq<char>
    decreases items.len(),
{
    if items.len() == 0 {
        Seq::empty()
    } else if items.len() == 1 {
        items[0]
    } else {
        plus_joined(items.drop_last()) + "+"@ + items.last()
    }
}

/// An optional text, or `auto` where there is none.
pub open spec fn or_auto(text: Option<Seq<char>>) -> Seq<char> {
    match text {
        Some(t) => t,
        None => "auto"@,
    }
}

/// The lines that show a snapshot.
pub open spec fn config_lines(
    config: ConfigView,
    on_level: Seq<char>,
    off_level: Seq<char>,
    sound_volume: Seq<char>,
) -> Seq<Seq<char>> {
    seq![
        "keys: "@ + plus_joined(labels_of(config.keys)),
        "device: "@ + or_auto(config.device_path),
        "mode: "@ + mode_text(config.mode),
        "reverse: "@ + bool_word(config.reverse),
        "on_level: "@ + on_level,
        "off_level: "@ + off_level,
        "sounds: "@ + bool_word(config.sounds),
        "sound_on: "@ + sound_text(config.sound_on),
        "sound_off: "@ + sound_text(config.sound_off),
        "sound_volume: "@ + sound_volume,
        "startup_state: "@ + startup_state_text(config.startup_state),
        "suppress: "@ + bool_word(config.suppress),
    ]
}

/// The keys of a stored configuration as they are shown: joined by `+`,
/// or the default key where there is none.
pub open spec fn stored_keys_text(keys: Seq<Seq<char>>) -> Seq<char> {
    if keys.len() == 0 {
        "BTN_EXTRA"@
    } else {
        plus_joined(keys)
    }
}

/// The lines that show a stored configuration and the file it came from.
pub open spec fn persisted_lines(
    path: Seq<char>,
    config: PersistedView,
    on_level: Seq<char>,
    off_level: Seq<char>,
    sound_volume: Seq<char>,
) -> Seq<Seq<char>> {
    seq![
        "config_path: "@ + path,
        "config_keys: "@ + stored_keys_text(config.keys),
        "config_device: "@ + or_auto(config.device_path),
        "config_mode: "@ + config.mode,
        "config_reverse: "@ + bool_word(config.reverse),
        "config_on_level: "@ + on_level,
        "config_off_level: "@ + off_level,
        "config_sounds: "@ + bool_word(config.sounds),
        "config_sound_on: "@ + sound_text(chosen_sound(config.sound_on)),
        "config_sound_off: "@ + sound_text(chosen_sound(config.sound_off)),
        "config_sound_volume: "@ + sound_volume,
        "config_startup_state: "@ + config.startup_state,
        "config_suppress: "@ + bool_word(config.suppress),
    ]
}

/// The word for a truth value.
pub fn bool_text(flag: bool) -> (word: &'static str)
    ensures
        word@ == bool_word(flag),
{
    if flag {
        "true"
    } else {
        "false"
    }
}

/// A line made of a heading and a value.
pub fn heading_line(heading: &str, value: &str) -> (text: String)
    ensures
        text@ == heading@ + value@,
{
    let mut text = heading.to_owned();
    text.append(value);
    text
}

/// Texts joined by `+`.
pub fn join_plus(items: &Vec<String>) -> (text: String)
    ensures
        text@ == plus_joined(string_texts(items@)),
{
    let mut text = String::new();
    let mut i: usize = 0;
    let ghost texts = string_texts(items@);
    assert(texts.take(0) =~= Seq::<Seq<char>>::empty());
    while i < items.len()
        invariant
            i <= items.len(),
            texts == string_texts(items@),
            text@ == plus_joined(texts.take(i as int)),
        decreases items.len() - i,
    {
        proof {
            assert(texts.take(i + 1).drop_last() =~= texts.take(i as int));
            assert(texts.take(i + 1).last() == items@[i as int]@);
        }
        if i > 0 {
            text.append("+");
        } else {
            assert(Seq::<char>::empty() + items@[0]@ =~= items@[0]@);
        }
        text.append(items[i].as_str());
        i += 1;
    }
    assert(texts.take(i as int) =~= texts);
    text
}

/// The text of an optional path, or `auto`.
fn device_text(path: &Option<String>) -> (text: String)
    ensures
        text@ == or_auto(text_view(*path)),
{
    match path {
        Some(p) => p.clone(),
        None => "auto".to_owned(),
    }
}

/// The lines that show a snapshot, with the levels as the caller rendered them.
pub fn print_config(config: &Config, levels: &LevelTexts) -> (lines: Vec<String>)
    ensures
        string_texts(lines@) == config_lines(
            config@,
            levels.on_level@,
            levels.off_level@,
            levels.sound_volume@,
        ),
{
    let mut labels: Vec<String> = Vec::new();
    let mut i: usize = 0;
    while i < config.keys.len()
        invariant
            i <= config.keys.len(),
            labels@.len() == i,
            forall|j: int| 0 <= j < i ==> labels@[j]@ == label_of(config.keys@[j]),
        decreases config.keys.len() - i,
    {
        labels.push(key_label(config.keys[i]));
        i += 1;
    }
    assert(string_texts(labels@) =~= labels_of(config.keys@));
    let mut lines: Vec<String> = Vec::new();
    lines.push(heading_line("keys: ", join_plus(&labels).as_str()));
    lines.push(heading_line("device: ", device_text(&config.device_path).as_str()));
    lines.push(heading_line("mode: ", mode_label(config.mode)));
    lines.push(heading_line("reverse: ", bool_text(config.reverse)));
    lines.push(heading_line("on_level: ", levels.on_level.as_str()));
    lines.push(heading_line("off_level: ", levels.off_level.as_str()));
    lines.push(heading_line("sounds: ", bool_text(config.sounds)));
    lines.push(heading_line("sound_on: ", sound_label(&config.sound_on).as_str()));
    lines.push(heading_line("sound_off: ", sound_label(&config.sound_off).as_str()));
    lines.push(heading_line("sound_volume: ", levels.sound_volume.as_str()));
    lines.push(heading_line("startup_state: ", startup_state_label(config.startup_state)));
    lines.push(heading_line("suppress: ", bool_text(config.suppress)));
    assert(string_texts(lines@) =~= config_lines(
        config@,
        levels.on_level@,
        levels.off_level@,
        levels.sound_volume@,
    ));
    lines
}

/// The lines that show a stored configuration and the file it came from.
pub fn print_persisted_config(path: &str, config: &PersistedConfig, levels: &LevelTexts) -> (lines:
    Vec<String>)
    ensures
        string_texts(lines@) == persisted_lines(
            path@,
            config@,
            levels.on_level@,
            levels.off_level@,
            levels.sound_volume@,
        ),
{
    let keys = if config.keys.len() == 0 {
        "BTN_EXTRA".to_owned()
    } else {
        join_plus(&config.keys)
    };
    let mut lines: Vec<String> = Vec::new();
    lines.push(heading_line("config_path: ", path));
    lines.push(heading_line("config_keys: ", keys.as_str()));
    lines.push(heading_line("config_device: ", device_text(&config.device_path).as_str()));
    lines.push(heading_line("config_mode: ", config.mode.as_str()));
    lines.push(heading_line("config_reverse: ", bool_text(config.reverse)));
    lines.push(heading_line("config_on_level: ", levels.on_level.as_str()));
    lines.push(heading_line("config_off_level: ", levels.off_level.as_str()));
    lines.push(heading_line("config_sounds: ", bool_text(config.sounds)));
    lines.push(heading_line("config_sound_on: ", persisted_sound_label(&config.sound_on).as_str()));
    lines.push(heading_line("config_sound_off: ", persisted_sound_label(&config.sound_off).as_str()));
    lines.push(heading_line("config_sound_volume: ", levels.sound_volume.as_str()));
    lines.push(heading_line("config_startup_state: ", config.startup_state.as_str()));
    lines.push(heading_line("config_suppress: ", bool_text(config.suppress)));
    assert(string_texts(lines@) =~= persisted_lines(
        path@,
        config@,
        levels.on_level@,
        levels.off_level@,
        levels.sound_volume@,
    ));
    lines
}

} // verus!
