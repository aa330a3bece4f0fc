//! Key names: the names this program accepts for keys, and their codes.
//!
//! The program has its own list of accepted names. The code that belongs to
//! a name is not written down here; it is looked up in evdev's name table.

use crate::config::{str_eq, ConfigError, ConfigErrorView};
use crate::text::{chars_of, decimal, decimal_text, string_texts};
use vstd::prelude::*;

verus! {

/// The code that evdev's name table gives for a key name, if it has the name.
pub uninterp spec fn evdev_key_code(name: Seq<char>) -> Option<u16>;

/// What `str::trim` makes of a text: the text without the white space at
/// its two ends.
pub uninterp spec fn trimmed(text: Seq<char>) -> Seq<char>;

/// The character is a decimal digit.
pub open spec fn is_digit(c: char) -> bool {
    '0' <= c && c <= '9'
}

/// The number that decimal digits write.
pub open spec fn digits_value(digits: Seq<char>) -> nat
    decreases digits.len(),
{
    if digits.len() == 0 {
        0
    } else {
        digits_value(digits.drop_last()) * 10 + ((digits.last() as u32) - ('0' as u32)) as nat
    }
}

/// What `str::parse::<u16>` makes of a text: the number that it writes, if
/// the text is an optional `+` followed by decimal digits, at least one,
/// that write a number below 65536.
pub open spec fn parsed_u16(text: Seq<char>) -> Option<u16> {
    let digits = if text.len() > 0 && text[0] == '+' {
        text.skip(1)
    } else {
        text
    };
    if digits.len() > 0 && (forall|i: int| 0 <= i < digits.len() ==> is_digit(#[trigger] digits[i]))
        && digits_value(digits) <= u16::MAX {
        Some(digits_value(digits) as u16)
    } else {
        None
    }
}

/// A character with a small ASCII letter made capital.
pub open spec fn upper_char(c: char) -> char {
    if 'a' <= c && c <= 'z' {
        ((c as u32) - 32) as char
    } else {
        c
    }
}

/// A text with its small ASCII letters made capital.
pub open spec fn upper_text(text: Seq<char>) -> Seq<char> {
    text.map_values(|c: char| upper_char(c))
}

/// The names that are accepted for keys, in the order in which they are listed.
pub open spec fn supported_names() -> Seq<Seq<char>> {
    seq![
        "BTN_LEFT"@,
        "BTN_RIGHT"@,
        "BTN_MIDDLE"@,
        "BTN_SIDE"@,
        "BTN_EXTRA"@,
        "BTN_FORWARD"@,
        "BTN_BACK"@,
        "KEY_A"@,
        "KEY_B"@,
        "KEY_C"@,
        "KEY_D"@,
        "KEY_E"@,
        "KEY_F"@,
        "KEY_G"@,
        "KEY_H"@,
        "KEY_I"@,
        "KEY_J"@,
        "KEY_K"@,
        "KEY_L"@,
        "KEY_M"@,
        "KEY_N"@,
        "KEY_O"@,
        "KEY_P"@,
        "KEY_Q"@,
        "KEY_R"@,
        "KEY_S"@,
        "KEY_T"@,
        "KEY_U"@,
        "KEY_V"@,
        "KEY_W"@,
        "KEY_X"@,
        "KEY_Y"@,
        "KEY_Z"@,
        "KEY_0"@,
        "KEY_1"@,
        "KEY_2"@,
        "KEY_3"@,
        "KEY_4"@,
        "KEY_5"@,
        "KEY_6"@,
        "KEY_7"@,
        "KEY_8"@,
        "KEY_9"@,
        "KEY_F1"@,
        "KEY_F2"@,
        "KEY_F3"@,
        "KEY_F4"@,
        "KEY_F5"@,
        "KEY_F6"@,
        "KEY_F7"@,
        "KEY_F8"@,
        "KEY_F9"@,
        "KEY_F10"@,
        "KEY_F11"@,
        "KEY_F12"@,
        "KEY_LEFTCTRL"@,
        "KEY_RIGHTCTRL"@,
        "KEY_LEFTSHIFT"@,
        "KEY_RIGHTSHIFT"@,
        "KEY_LEFTALT"@,
        "KEY_RIGHTALT"@,
        "KEY_LEFTMETA"@,
        "KEY_RIGHTMETA"@,
        "KEY_CAPSLOCK"@,
        "KEY_TAB"@,
        "KEY_SPACE"@,
        "KEY_ENTER"@,
        "KEY_ESC"@,
        "KEY_BACKSPACE"@,
        "KEY_UP"@,
        "KEY_DOWN"@,
        "KEY_LEFT"@,
        "KEY_RIGHT"@,
        "KEY_HOME"@,
        "KEY_END"@,
        "KEY_PAGEUP"@,
        "KEY_PAGEDOWN"@,
        "KEY_INSERT"@,
        "KEY_DELETE"@,
        "KEY_MINUS"@,
        "KEY_EQUAL"@,
        "KEY_LEFTBRACE"@,
        "KEY_RIGHTBRACE"@,
        "KEY_BACKSLASH"@,
        "KEY_SEMICOLON"@,
        "KEY_APOSTROPHE"@,
        "KEY_GRAVE"@,
        "KEY_COMMA"@,
        "KEY_DOT"@,
        "KEY_SLASH"@,
        "KEY_NUMLOCK"@,
        "KEY_KPSLASH"@,
        "KEY_KPASTERISK"@,
        "KEY_KPMINUS"@,
        "KEY_KPPLUS"@,
        "KEY_KPENTER"@,
        "KEY_KP0"@,
        "KEY_KP1"@,
        "KEY_KP2"@,
        "KEY_KP3"@,
        "KEY_KP4"@,
        "KEY_KP5"@,
        "KEY_KP6"@,
        "KEY_KP7"@,
        "KEY_KP8"@,
        "KEY_KP9"@,
        "KEY_KPDOT"@,
        "KEY_MUTE"@,
        "KEY_VOLUMEDOWN"@,
        "KEY_VOLUMEUP"@,
        "KEY_PLAYPAUSE"@,
        "KEY_NEXTSONG"@,
        "KEY_PREVIOUSSONG"@,
        "KEY_STOPCD"@,
    ]
}

/// The texts of a list of names.
pub open spec fn name_texts(names: Seq<&'static str>) -> Seq<Seq<char>> {
    names.map_values(|name: &'static str| name@)
}

/// The key that a normalized text names, given the number that the text
/// writes, if it writes one: the number is the code itself; otherwise the
/// text has to be an accepted name that evdev knows.
pub open spec fn key_from_parts(normalized: Seq<char>, number: Option<u16>) -> Option<u16> {
    match number {
        Some(code) => Some(code),
        None => if supported_names().contains(normalized) {
            evdev_key_code(normalized)
        } else {
            None
        },
    }
}

/// The key that a text names. The text is trimmed and put in capitals; a
/// number that fits sixteen bits is the code itself; otherwise the text
/// has to be an accepted name that evdev knows.
pub open spec fn key_of(input: Seq<char>) -> Option<u16> {
    let normalized = upper_text(trimmed(input));
    key_from_parts(normalized, parsed_u16(normalized))
}

/// The first of the names whose code is `key`, if there is one.
pub open spec fn first_name_of(names: Seq<Seq<char>>, key: u16) -> Option<Seq<char>>
    decreases names.len(),
{
    if names.len() == 0 {
        None
    } else if evdev_key_code(names[0]) == Some(key) {
        Some(names[0])
    } else {
        first_name_of(names.skip(1), key)
    }
}

/// How a key is shown: by the first accepted name with its code, else by
/// its code in decimal.
pub open spec fn label_of(key: u16) -> Seq<char> {
    match first_name_of(supported_names(), key) {
        Some(name) => name,
        None => decimal_text(key as nat),
    }
}

/// Looks a key name up with evdev's `FromStr` for `KeyCode` and takes the
/// code of the key found. The lookup is a search of evdev's fixed table of
/// names for an equal name, so its result depends on the name alone.
#[verifier::external_body]
pub(crate) fn key_code_by_name(name: &str) -> (code: Option<u16>)
    ensures
        code == evdev_key_code(name@),
{
    match name.parse::<evdev::KeyCode>() {
        Ok(key) => Some(key.code()),
        Err(_) => None,
    }
}

/// `str::trim`: the text without leading and trailing white space.
#[verifier::external_body]
pub(crate) fn trim(text: &str) -> (inner: &str)
    ensures
        inner@ == trimmed(text@),
{
    text.trim()
}

/// `str::to_ascii_uppercase`: the letters `a` to `z` become `A` to `Z`,
/// every other character stays as it is.
#[verifier::external_body]
pub(crate) fn to_ascii_uppercase(text: &str) -> (upper: String)
    ensures
        upper@ == upper_text(text@),
{
    text.to_ascii_uppercase()
}

/// `str::parse::<u16>`: the number that the text writes. The contract
/// states what the standard library documents: an optional `+`, then
/// decimal digits only, and an error for an empty text, any other
/// character, or a number that does not fit.
#[verifier::external_body]
pub(crate) fn parse_u16(text: &str) -> (number: Option<u16>)
    ensures
        number == parsed_u16(text@),
{
    text.parse::<u16>().ok()
}

/// The code of the key that stands in for an empty chord, evdev's
/// `KeyCode::BTN_EXTRA`. evdev's name table is written from the same list
/// as its constants, so the table gives this code for the constant's name.
#[verifier::external_body]
pub(crate) fn default_key() -> (code: u16)
    ensures
        evdev_key_code("BTN_EXTRA"@) == Some(code),
{
    evdev::KeyCode::BTN_EXTRA.code()
}

/// The names that are accepted for keys.
pub fn supported_key_names() -> (names: Vec<&'static str>)
    ensures
        name_texts(names@) == supported_names(),
{
    let names: Vec<&'static str> = vec![
        "BTN_LEFT",
        "BTN_RIGHT",
        "BTN_MIDDLE",
        "BTN_SIDE",
        "BTN_EXTRA",
        "BTN_FORWARD",
        "BTN_BACK",
        "KEY_A",
        "KEY_B",
        "KEY_C",
        "KEY_D",
        "KEY_E",
        "KEY_F",
        "KEY_G",
        "KEY_H",
        "KEY_I",
        "KEY_J",
        "KEY_K",
        "KEY_L",
        "KEY_M",
        "KEY_N",
        "KEY_O",
        "KEY_P",
        "KEY_Q",
        "KEY_R",
        "KEY_S",
        "KEY_T",
        "KEY_U",
        "KEY_V",
        "KEY_W",
        "KEY_X",
        "KEY_Y",
        "KEY_Z",
        "KEY_0",
        "KEY_1",
        "KEY_2",
        "KEY_3",
        "KEY_4",
        "KEY_5",
        "KEY_6",
        "KEY_7",
        "KEY_8",
        "KEY_9",
        "KEY_F1",
        "KEY_F2",
        "KEY_F3",
        "KEY_F4",
        "KEY_F5",
        "KEY_F6",
        "KEY_F7",
        "KEY_F8",
        "KEY_F9",
        "KEY_F10",
        "KEY_F11",
        "KEY_F12",
        "KEY_LEFTCTRL",
        "KEY_RIGHTCTRL",
        "KEY_LEFTSHIFT",
        "KEY_RIGHTSHIFT",
        "KEY_LEFTALT",
        "KEY_RIGHTALT",
        "KEY_LEFTMETA",
        "KEY_RIGHTMETA",
        "KEY_CAPSLOCK",
        "KEY_TAB",
        "KEY_SPACE",
        "KEY_ENTER",
        "KEY_ESC",
        "KEY_BACKSPACE",
        "KEY_UP",
        "KEY_DOWN",
        "KEY_LEFT",
        "KEY_RIGHT",
        "KEY_HOME",
        "KEY_END",
        "KEY_PAGEUP",
        "KEY_PAGEDOWN",
        "KEY_INSERT",
        "KEY_DELETE",
        "KEY_MINUS",
        "KEY_EQUAL",
        "KEY_LEFTBRACE",
        "KEY_RIGHTBRACE",
        "KEY_BACKSLASH",
        "KEY_SEMICOLON",
        "KEY_APOSTROPHE",
        "KEY_GRAVE",
        "KEY_COMMA",
        "KEY_DOT",
        "KEY_SLASH",
        "KEY_NUMLOCK",
        "KEY_KPSLASH",
        "KEY_KPASTERISK",
        "KEY_KPMINUS",
        "KEY_KPPLUS",
        "KEY_KPENTER",
        "KEY_KP0",
        "KEY_KP1",
        "KEY_KP2",
        "KEY_KP3",
        "KEY_KP4",
        "KEY_KP5",
        "KEY_KP6",
        "KEY_KP7",
        "KEY_KP8",
        "KEY_KP9",
        "KEY_KPDOT",
        "KEY_MUTE",
        "KEY_VOLUMEDOWN",
        "KEY_VOLUMEUP",
        "KEY_PLAYPAUSE",
        "KEY_NEXTSONG",
        "KEY_PREVIOUSSONG",
        "KEY_STOPCD",
    ];
    assert(name_texts(names@) =~= supported_names());
    names
}

/// The key that a normalized text names, given the number that the text
/// writes, if it writes one.
pub fn key_from(normalized: &str, number: Option<u16>) -> (key: Option<u16>)
    ensures
        key == key_from_parts(normalized@, number),
{
    if number.is_some() {
        return number;
    }
    let names = supported_key_names();
    let mut i: usize = 0;
    while i < names.len()
        invariant
            i <= names.len(),
            name_texts(names@) == supported_names(),
            number is None,
            forall|j: int| 0 <= j < i ==> supported_names()[j] != normalized@,
        decreases names.len() - i,
    {
        assert(name_texts(names@)[i as int] == names@[i as int]@);
        if str_eq(names[i], normalized) {
            assert(supported_names().contains(normalized@));
            return key_code_by_name(names[i]);
        }
        i += 1;
    }
    assert(names@.len() == supported_names().len()) by {
        assert(name_texts(names@).len() == names@.len());
    }
    None
}

/// Reads one key: a code in decimal, or an accepted name in any case,
/// with white space around it ignored. Anything else is rejected and
/// handed back as it was given.
pub fn parse_key(input: &str) -> (parsed: Result<u16, ConfigError>)
    ensures
        match key_of(input@) {
            Some(code) => parsed == Ok::<u16, ConfigError>(code),
            None => parsed is Err && parsed->Err_0@ == ConfigErrorView::UnknownKey(input@),
        },
{
    let normalized = to_ascii_uppercase(trim(input));
    let number = parse_u16(normalized.as_str());
    match key_from(normalized.as_str(), number) {
        Some(code) => Ok(code),
        None => Err(ConfigError::UnknownKey(input.to_owned())),
    }
}

/// How a key is shown: by its name if it has an accepted one, else by its code.
pub fn key_label(key: u16) -> (label: String)
    ensures
        label@ == label_of(key),
{
    let names = supported_key_names();
    let mut i: usize = 0;
    assert(supported_names().skip(0) =~= supported_names());
    while i < names.len()
        invariant
            i <= names.len(),
            name_texts(names@) == supported_names(),
            first_name_of(supported_names(), key) == first_name_of(
                supported_names().skip(i as int),
                key,
            ),
        decreases names.len() - i,
    {
        let ghost rest = supported_names().skip(i as int);
        assert(name_texts(names@).len() == names@.len());
        assert(rest[0] == names@[i as int]@) by {
            assert(name_texts(names@)[i as int] == names@[i as int]@);
        }
        assert(rest.skip(1) =~= supported_names().skip(i + 1));
        if let Some(code) = key_code_by_name(names[i]) {
            if code == key {
                return names[i].to_owned();
            }
        }
        i += 1;
    }
    assert(name_texts(names@).len() == names@.len());
    decimal(key)
}

/// The position of the first `+` of a text, or the text's length if it has none.
pub open spec fn first_plus(text: Seq<char>) -> int
    decreases text.len(),
{
    if text.len() == 0 {
        0
    } else if text[0] == '+' {
        0
    } else {
        1 + first_plus(text.skip(1))
    }
}

/// The parts of a text between its `+` signs, in order. A text without
/// `+` is its own single part; there is always at least one part.
pub open spec fn plus_parts(text: Seq<char>) -> Seq<Seq<char>>
    decreases text.len(),
    via plus_parts_decreases
{
    let cut = first_plus(text);
    if cut >= text.len() {
        seq![text]
    } else {
        seq![text.take(cut)] + plus_parts(text.skip(cut + 1))
    }
}

#[via_fn]
proof fn plus_parts_decreases(text: Seq<char>) {
    first_plus_in_range(text);
}

/// The keys that named parts stand for, each part given with the key it
/// names, if it names one: all the keys in order, or the first part that
/// names no key.
pub open spec fn collected(parts: Seq<(Seq<char>, Option<u16>)>) -> Result<Seq<u16>, Seq<char>>
    decreases parts.len(),
{
    if parts.len() == 0 {
        Ok(Seq::empty())
    } else {
        match collected(parts.drop_last()) {
            Err(unknown) => Err(unknown),
            Ok(keys) => match parts.last().1 {
                Some(code) => Ok(keys.push(code)),
                None => Err(parts.last().0),
            },
        }
    }
}

/// A part of a chord as it is read: trimmed, and with the key it names.
pub open spec fn read_part(part: Seq<char>) -> (Seq<char>, Option<u16>) {
    (trimmed(part), key_of(trimmed(part)))
}

/// The keys of a chord written as names or codes joined by `+`, or the
/// first part that names no key. Every part is trimmed before it is read.
pub open spec fn keys_of(text: Seq<char>) -> Result<Seq<u16>, Seq<char>> {
    collected(plus_parts(text).map_values(|part: Seq<char>| read_part(part)))
}

/// Mathematical form of a list of parts with their keys.
pub open spec fn part_views(parts: Seq<(String, Option<u16>)>) -> Seq<(Seq<char>, Option<u16>)> {
    parts.map_values(|part: (String, Option<u16>)| (part.0@, part.1))
}

/// The first `+` lies within the text, and nothing before it is a `+`.
pub proof fn first_plus_in_range(text: Seq<char>)
    ensures
        0 <= first_plus(text) <= text.len(),
        first_plus(text) < text.len() ==> text[first_plus(text)] == '+',
        forall|i: int| 0 <= i < first_plus(text) ==> text[i] != '+',
    decreases text.len(),
{
    if text.len() > 0 && text[0] != '+' {
        first_plus_in_range(text.skip(1));
        assert forall|i: int| 0 <= i < first_plus(text) implies text[i] != '+' by {
            if i > 0 {
                assert(text.skip(1)[i - 1] == text[i]);
            }
        }
    }
}

/// A position is the first `+` of a text when it holds a `+`, or is the
/// text's end, and nothing before it is a `+`.
proof fn first_plus_is(text: Seq<char>, at: int)
    requires
        0 <= at <= text.len(),
        at < text.len() ==> text[at] == '+',
        forall|i: int| 0 <= i < at ==> text[i] != '+',
    ensures
        first_plus(text) == at,
    decreases text.len(),
{
    if text.len() > 0 && at > 0 {
        assert forall|i: int| 0 <= i < at - 1 implies text.skip(1)[i] != '+' by {
            assert(text.skip(1)[i] == text[i + 1]);
        }
        first_plus_is(text.skip(1), at - 1);
    }
}

/// A text has at least one part.
pub proof fn plus_parts_not_empty(text: Seq<char>)
    ensures
        plus_parts(text).len() >= 1,
{
    first_plus_in_range(text);
}

/// Where every part names a key there are as many keys as parts, and the
/// keys are the parts' keys in order.
pub proof fn collected_keeps_length(parts: Seq<(Seq<char>, Option<u16>)>)
    ensures
        collected(parts) matches Ok(keys) ==> keys.len() == parts.len(),
    decreases parts.len(),
{
    if parts.len() > 0 {
        collected_keeps_length(parts.drop_last());
    }
}

/// Once a part has failed, the whole list fails with that part.
pub proof fn collected_fails_early(parts: Seq<(Seq<char>, Option<u16>)>, upto: int)
    requires
        0 <= upto <= parts.len(),
        collected(parts.take(upto)) is Err,
    ensures
        collected(parts) == collected(parts.take(upto)),
    decreases parts.len() - upto,
{
    if upto < parts.len() {
        assert(parts.take(upto + 1).drop_last() =~= parts.take(upto));
        collected_fails_early(parts, upto + 1);
    } else {
        assert(parts.take(upto) =~= parts);
    }
}

/// A chord that can be read has at least one key.
pub proof fn chord_is_never_empty(text: Seq<char>)
    ensures
        keys_of(text) matches Ok(keys) ==> keys.len() >= 1,
{
    plus_parts_not_empty(text);
    collected_keeps_length(plus_parts(text).map_values(|part: Seq<char>| read_part(part)));
}

/// Splits a text at its `+` signs.
pub fn split_chord(input: &str) -> (parts: Vec<String>)
    ensures
        string_texts(parts@) == plus_parts(input@),
{
    let chars = chars_of(input);
    let len = chars.len();
    let mut parts: Vec<String> = Vec::new();
    let mut start: usize = 0;
    let mut at: usize = 0;
    assert(input@.skip(0) =~= input@);
    assert(string_texts(parts@) + plus_parts(input@) =~= plus_parts(input@));
    loop
        invariant
            chars@ == input@,
            len == chars.len(),
            start <= at <= len,
            forall|i: int| start <= i < at ==> input@[i] != '+',
            plus_parts(input@) == string_texts(parts@) + plus_parts(input@.skip(start as int)),
        decreases len - at,
    {
        if at < len && chars[at] != '+' {
            at += 1;
            continue ;
        }
        let ghost tail = input@.skip(start as int);
        let ghost before = string_texts(parts@);
        proof {
            assert forall|i: int| 0 <= i < at - start implies tail[i] != '+' by {
                assert(tail[i] == input@[start + i]);
            }
            first_plus_is(tail, at - start);
            assert(tail.take(at - start) =~= input@.subrange(start as int, at as int));
            if at < len {
                assert(tail.skip(at - start + 1) =~= input@.skip(at + 1));
            } else {
                assert(tail.take(at - start) =~= tail);
            }
        }
        let part = input.substring_char(start, at).to_owned();
        parts.push(part);
        proof {
            assert(string_texts(parts@) =~= before.push(part@));
        }
        if at >= len {
            proof {
                assert(before + seq![tail] =~= before.push(tail));
            }
            return parts;
        }
        proof {
            let rest = plus_parts(input@.skip(at + 1));
            assert(before + (seq![part@] + rest) =~= before.push(part@) + rest);
        }
        at += 1;
        start = at;
    }
}

/// Puts the keys of a chord's parts together, each part given with the
/// key it names, if it names one: the first part that names none rejects
/// the whole chord and is handed back.
pub fn collect_keys(parts: &Vec<(String, Option<u16>)>) -> (keys: Result<Vec<u16>, ConfigError>)
    ensures
        match collected(part_views(parts@)) {
            Ok(codes) => keys is Ok && keys->Ok_0@ == codes,
            Err(unknown) => keys is Err && keys->Err_0@ == ConfigErrorView::UnknownKey(unknown),
        },
{
    let mut keys: Vec<u16> = Vec::new();
    let mut i: usize = 0;
    let ghost views = part_views(parts@);
    assert(views.take(0) =~= Seq::<(Seq<char>, Option<u16>)>::empty());
    while i < parts.len()
        invariant
            i <= parts.len(),
            views == part_views(parts@),
            collected(views.take(i as int)) == Ok::<Seq<u16>, Seq<char>>(keys@),
        decreases parts.len() - i,
    {
        proof {
            assert(views.take(i + 1).drop_last() =~= views.take(i as int));
            assert(views.take(i + 1).last() == (parts@[i as int].0@, parts@[i as int].1));
        }
        match parts[i].1 {
            Some(code) => {
                keys.push(code);
            },
            None => {
                proof {
                    collected_fails_early(views, i + 1);
                }
                return Err(ConfigError::UnknownKey(parts[i].0.clone()));
            },
        }
        i += 1;
    }
    assert(views.take(i as int) =~= views);
    Ok(keys)
}

/// Reads a chord: keys joined by `+`, each a name or a code. The first
/// part that names no key rejects the whole chord. A chord that is read
/// has at least one key.
pub fn parse_keys(input: &str) -> (parsed: Result<Vec<u16>, ConfigError>)
    ensures
        match keys_of(input@) {
            Ok(keys) => parsed is Ok && parsed->Ok_0@ == keys,
            Err(unknown) => parsed is Err && parsed->Err_0@ == ConfigErrorView::UnknownKey(unknown),
        },
        parsed is Ok ==> parsed->Ok_0@.len() >= 1,
{
    let texts = split_chord(input);
    let mut parts: Vec<(String, Option<u16>)> = Vec::new();
    let mut i: usize = 0;
    let ghost goal = plus_parts(input@).map_values(|part: Seq<char>| read_part(part));
    while i < texts.len()
        invariant
            i <= texts.len(),
            string_texts(texts@) == plus_parts(input@),
            goal == plus_parts(input@).map_values(|part: Seq<char>| read_part(part)),
            parts@.len() == i,
            forall|j: int| 0 <= j < i ==> #[trigger] part_views(parts@)[j] == goal[j],
        decreases texts.len() - i,
    {
        assert(string_texts(texts@)[i as int] == texts@[i as int]@);
        let name = trim(texts[i].as_str());
        let key = match parse_key(name) {
            Ok(code) => Some(code),
            Err(_) => None,
        };
        let ghost before = parts@;
        parts.push((name.to_owned(), key));
        proof {
            assert forall|j: int| 0 <= j < i + 1 implies #[trigger] part_views(parts@)[j]
                == goal[j] by {
                if j < i {
                    assert(part_views(before)[j] == goal[j]);
                    assert(parts@[j] == before[j]);
                }
            }
        }
        i += 1;
    }
    proof {
        assert(string_texts(texts@).len() == texts@.len());
        assert(part_views(parts@) =~= goal);
        chord_is_never_empty(input@);
    }
    collect_keys(&parts)
}

} // verus!
