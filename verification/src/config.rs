//! The configuration snapshot and the textual forms of its settings.

use vstd::prelude::*;

verus! {

/// How the microphone is toggled: by absolute volume level or by mute state.
#[derive(Copy, Clone, Debug, PartialEq, Eq, Structural)]
pub enum Mode {
    Volume,
    Mute,
}

/// The microphone state that is applied once at launch.
#[derive(Copy, Clone, Debug, PartialEq, Eq, Structural)]
pub enum StartupState {
    Muted,
    Unmuted,
}

/// A volume level, held as the bit pattern of its IEEE 754 single-precision
/// value. The library never computes with levels; it only carries them.
#[derive(Copy, Clone, Debug, PartialEq, Eq, Structural)]
pub struct Level {
    pub bits: u32,
}

/// Bit pattern of the level one (full volume).
pub const LEVEL_ONE_BITS: u32 = 0x3F80_0000;

/// Bit pattern of the level zero (silence).
pub const LEVEL_ZERO_BITS: u32 = 0;

/// Which sound accompanies a transition.
#[derive(Clone, Debug)]
pub enum SoundChoice {
    Default,
    Disabled,
    File(String),
}

/// Mathematical form of a [`SoundChoice`].
pub enum SoundChoiceView {
    Default,
    Disabled,
    File(Seq<char>),
}

impl View for SoundChoice {
    type V = SoundChoiceView;

    open spec fn view(&self) -> SoundChoiceView {
        match self {
            SoundChoice::Default => SoundChoiceView::Default,
            SoundChoice::Disabled => SoundChoiceView::Disabled,
            SoundChoice::File(path) => SoundChoiceView::File(path@),
        }
    }
}

/// A sound setting as the configuration file holds it: a boolean or a path.
#[derive(Clone, Debug)]
pub enum SoundSettingValue {
    Bool(bool),
    String(String),
}

/// Mathematical form of a [`SoundSettingValue`].
pub enum SoundSettingView {
    Bool(bool),
    Text(Seq<char>),
}

impl View for SoundSettingValue {
    type V = SoundSettingView;

    open spec fn view(&self) -> SoundSettingView {
        match self {
            SoundSettingValue::Bool(flag) => SoundSettingView::Bool(*flag),
            SoundSettingValue::String(text) => SoundSettingView::Text(text@),
        }
    }
}

/// Mathematical form of an optional sound setting.
pub open spec fn setting_view(setting: Option<SoundSettingValue>) -> Option<SoundSettingView> {
    match setting {
        None => None,
        Some(value) => Some(value@),
    }
}

/// Why a configuration was rejected.
#[derive(Clone, Debug)]
pub enum ConfigError {
    /// The mode is neither `volume` nor `mute`.
    InvalidMode(String),
    /// The startup state is neither `muted` nor `unmuted`.
    InvalidStartupState(String),
    /// A key is neither a number that fits sixteen bits nor a supported name.
    UnknownKey(String),
    /// The file chosen for the "on" sound does not exist.
    MissingSoundOn(String),
    /// The file chosen for the "off" sound does not exist.
    MissingSoundOff(String),
    /// An option that takes a value stood last on the command line.
    MissingValue(String),
    /// The value of a level option is not a number.
    InvalidLevel(String, String),
    /// An argument that is no option of the program.
    UnknownArgument(String),
}

/// Mathematical form of a [`ConfigError`].
pub enum ConfigErrorView {
    InvalidMode(Seq<char>),
    InvalidStartupState(Seq<char>),
    UnknownKey(Seq<char>),
    MissingSoundOn(Seq<char>),
    MissingSoundOff(Seq<char>),
    MissingValue(Seq<char>),
    InvalidLevel(Seq<char>, Seq<char>),
    UnknownArgument(Seq<char>),
}

impl View for ConfigError {
    type V = ConfigErrorView;

    open spec fn view(&self) -> ConfigErrorView {
        match self {
            ConfigError::InvalidMode(v) => ConfigErrorView::InvalidMode(v@),
            ConfigError::InvalidStartupState(v) => ConfigErrorView::InvalidStartupState(v@),
            ConfigError::UnknownKey(v) => ConfigErrorView::UnknownKey(v@),
            ConfigError::MissingSoundOn(v) => ConfigErrorView::MissingSoundOn(v@),
            ConfigError::MissingSoundOff(v) => ConfigErrorView::MissingSoundOff(v@),
            ConfigError::MissingValue(v) => ConfigErrorView::MissingValue(v@),
            ConfigError::InvalidLevel(flag, v) => ConfigErrorView::InvalidLevel(flag@, v@),
            ConfigError::UnknownArgument(v) => ConfigErrorView::UnknownArgument(v@),
        }
    }
}

/// The message that tells the user of a rejected configuration.
pub open spec fn error_text(error: ConfigErrorView) -> Seq<char> {
    match error {
        ConfigErrorView::InvalidMode(v) => "Invalid --mode '"@ + v + "'. Use 'volume' or 'mute'."@,
        ConfigErrorView::InvalidStartupState(v) => "Invalid --startup-state '"@ + v
            + "'. Use 'muted' or 'unmuted'."@,
        ConfigErrorView::UnknownKey(v) => "Unknown key '"@ + v
            + "'. Use a numeric key code or a known name like BTN_EXTRA/KEY_F9."@,
        ConfigErrorView::MissingSoundOn(v) => "Sound on file does not exist: "@ + v,
        ConfigErrorView::MissingSoundOff(v) => "Sound off file does not exist: "@ + v,
        ConfigErrorView::MissingValue(v) => "missing value for "@ + v,
        ConfigErrorView::InvalidLevel(flag, v) => "invalid "@ + flag + " '"@ + v + "'"@,
        ConfigErrorView::UnknownArgument(v) => "Unknown argument '"@ + v + "'. Use --help."@,
    }
}

/// Three texts in a row.
pub fn framed(before: &str, middle: &str, after: &str) -> (text: String)
    ensures
        text@ == before@ + middle@ + after@,
{
    let mut text = before.to_owned();
    text.append(middle);
    text.append(after);
    text
}

impl ConfigError {
    /// The message that tells the user of this error.
    pub fn message(&self) -> (text: String)
        ensures
            text@ == error_text(self@),
    {
        match self {
            ConfigError::InvalidMode(v) => framed(
                "Invalid --mode '",
                v.as_str(),
                "'. Use 'volume' or 'mute'.",
            ),
            ConfigError::InvalidStartupState(v) => framed(
                "Invalid --startup-state '",
                v.as_str(),
                "'. Use 'muted' or 'unmuted'.",
            ),
            ConfigError::UnknownKey(v) => framed(
                "Unknown key '",
                v.as_str(),
                "'. Use a numeric key code or a known name like BTN_EXTRA/KEY_F9.",
            ),
            ConfigError::MissingSoundOn(v) => {
                let mut text = "Sound on file does not exist: ".to_owned();
                text.append(v.as_str());
                text
            },
            ConfigError::MissingSoundOff(v) => {
                let mut text = "Sound off file does not exist: ".to_owned();
                text.append(v.as_str());
                text
            },
            ConfigError::MissingValue(v) => {
                let mut text = "missing value for ".to_owned();
                text.append(v.as_str());
                text
            },
            ConfigError::InvalidLevel(flag, v) => {
                let mut text = framed("invalid ", flag.as_str(), " '");
                text.append(v.as_str());
                text.append("'");
                text
            },
            ConfigError::UnknownArgument(v) => framed(
                "Unknown argument '",
                v.as_str(),
                "'. Use --help.",
            ),
        }
    }
}

/// Whether two string slices hold the same text.
pub fn str_eq(a: &str, b: &str) -> (same: bool)
    ensures
        same == (a@ == b@),
{
    let left = a.to_owned();
    let right = b.to_owned();
    left == right
}

/// The word that names a mode.
pub open spec fn mode_text(mode: Mode) -> Seq<char> {
    match mode {
        Mode::Volume => "volume"@,
        Mode::Mute => "mute"@,
    }
}

/// The word that names a mode.
pub fn mode_label(mode: Mode) -> (label: &'static str)
    ensures
        label@ == mode_text(mode),
{
    match mode {
        Mode::Volume => "volume",
        Mode::Mute => "mute",
    }
}

/// The mode that a word names, if it names one.
pub open spec fn mode_of_text(text: Seq<char>) -> Option<Mode> {
    if text == "volume"@ {
        Some(Mode::Volume)
    } else if text == "mute"@ {
        Some(Mode::Mute)
    } else {
        None
    }
}

/// Reads a mode from its word; any other text is rejected and handed back.
pub fn parse_mode(value: &str) -> (parsed: Result<Mode, ConfigError>)
    ensures
        match mode_of_text(value@) {
            Some(mode) => parsed == Ok::<Mode, ConfigError>(mode),
            None => parsed is Err && parsed->Err_0@ == ConfigErrorView::InvalidMode(value@),
        },
{
    if str_eq(value, "volume") {
        Ok(Mode::Volume)
    } else if str_eq(value, "mute") {
        Ok(Mode::Mute)
    } else {
        Err(ConfigError::InvalidMode(value.to_owned()))
    }
}

/// The word that names a startup state.
pub open spec fn startup_state_text(state: StartupState) -> Seq<char> {
    match state {
        StartupState::Muted => "muted"@,
        StartupState::Unmuted => "unmuted"@,
    }
}

/// The word that names a startup state.
pub fn startup_state_label(state: StartupState) -> (label: &'static str)
    ensures
        label@ == startup_state_text(state),
{
    match state {
        StartupState::Muted => "muted",
        StartupState::Unmuted => "unmuted",
    }
}

/// The startup state that a word names, if it names one.
pub open spec fn startup_state_of_text(text: Seq<char>) -> Option<StartupState> {
    if text == "muted"@ {
        Some(StartupState::Muted)
    } else if text == "unmuted"@ {
        Some(StartupState::Unmuted)
    } else {
        None
    }
}

/// Reads a startup state from its word; any other text is rejected and handed back.
pub fn parse_startup_state(value: &str) -> (parsed: Result<StartupState, ConfigError>)
    ensures
        match startup_state_of_text(value@) {
            Some(state) => parsed == Ok::<StartupState, ConfigError>(state),
            None => parsed is Err && parsed->Err_0@ == ConfigErrorView::InvalidStartupState(
                value@,
            ),
        },
{
    if str_eq(value, "muted") {
        Ok(StartupState::Muted)
    } else if str_eq(value, "unmuted") {
        Ok(StartupState::Unmuted)
    } else {
        Err(ConfigError::InvalidStartupState(value.to_owned()))
    }
}

/// The stored form of a sound choice: nothing for the default, `false` when
/// disabled, the path for a file.
pub open spec fn stored_sound(choice: SoundChoiceView) -> Option<SoundSettingView> {
    match choice {
        SoundChoiceView::Default => None,
        SoundChoiceView::Disabled => Some(SoundSettingView::Bool(false)),
        SoundChoiceView::File(path) => Some(SoundSettingView::Text(path)),
    }
}

/// The stored form of a sound choice.
pub fn sound_setting_value(setting: &SoundChoice) -> (stored: Option<SoundSettingValue>)
    ensures
        setting_view(stored) == stored_sound(setting@),
{
    match setting {
        SoundChoice::Default => None,
        SoundChoice::Disabled => Some(SoundSettingValue::Bool(false)),
        SoundChoice::File(path) => Some(SoundSettingValue::String(path.clone())),
    }
}

/// The sound choice that a stored setting stands for: an absent setting and
/// `true` both mean the default.
pub open spec fn chosen_sound(stored: Option<SoundSettingView>) -> SoundChoiceView {
    match stored {
        None => SoundChoiceView::Default,
        Some(SoundSettingView::Bool(false)) => SoundChoiceView::Disabled,
        Some(SoundSettingView::Bool(true)) => SoundChoiceView::Default,
        Some(SoundSettingView::Text(path)) => SoundChoiceView::File(path),
    }
}

/// The sound choice that a stored setting stands for.
pub fn parse_sound_setting(value: Option<SoundSettingValue>) -> (choice: SoundChoice)
    ensures
        choice@ == chosen_sound(setting_view(value)),
{
    match value {
        None => SoundChoice::Default,
        Some(SoundSettingValue::Bool(false)) => SoundChoice::Disabled,
        Some(SoundSettingValue::Bool(true)) => SoundChoice::Default,
        Some(SoundSettingValue::String(path)) => SoundChoice::File(path),
    }
}

/// How a sound choice is shown: `default`, `disabled`, or the path.
pub open spec fn sound_text(choice: SoundChoiceView) -> Seq<char> {
    match choice {
        SoundChoiceView::Default => "default"@,
        SoundChoiceView::Disabled => "disabled"@,
        SoundChoiceView::File(path) => path,
    }
}

/// How a sound choice is shown.
pub fn sound_label(setting: &SoundChoice) -> (label: String)
    ensures
        label@ == sound_text(setting@),
{
    match setting {
        SoundChoice::Default => "default".to_owned(),
        SoundChoice::Disabled => "disabled".to_owned(),
        SoundChoice::File(path) => path.clone(),
    }
}

/// How a stored sound setting is shown: as the choice it stands for.
pub fn persisted_sound_label(setting: &Option<SoundSettingValue>) -> (label: String)
    ensures
        label@ == sound_text(chosen_sound(setting_view(*setting))),
{
    match setting {
        None => "default".to_owned(),
        Some(SoundSettingValue::Bool(false)) => "disabled".to_owned(),
        Some(SoundSettingValue::Bool(true)) => "default".to_owned(),
        Some(SoundSettingValue::String(value)) => value.clone(),
    }
}

/// One complete configuration. A snapshot is replaced as a whole on reload
/// and never changed in place.
#[derive(Clone, Debug)]
pub struct Config {
    /// Keys that must be held together to activate the microphone.
    pub keys: Vec<u16>,
    /// Explicit input device, or none to probe for one.
    pub device_path: Option<String>,
    /// Volume or mute behaviour.
    pub mode: Mode,
    /// Level while active.
    pub on_level: Level,
    /// Level while inactive.
    pub off_level: Level,
    /// Whether transitions make a sound at all.
    pub sounds: bool,
    /// Sound for switching on.
    pub sound_on: SoundChoice,
    /// Sound for switching off.
    pub sound_off: SoundChoice,
    /// Playback volume of the transition sounds.
    pub sound_volume: Level,
    /// Print the supported keys and exit.
    pub list_keys: bool,
    /// Print the input devices and exit.
    pub list_devices: bool,
    /// Print the configuration and exit.
    pub print_config: bool,
    /// Validate and exit without touching the microphone.
    pub dry_run: bool,
    /// Microphone state applied at launch.
    pub startup_state: StartupState,
    /// Holding the chord mutes instead of unmutes.
    pub reverse: bool,
    /// Keep the chord's key events from other programs.
    pub suppress: bool,
}

/// Mathematical form of a [`Config`].
pub struct ConfigView {
    pub keys: Seq<u16>,
    pub device_path: Option<Seq<char>>,
    pub mode: Mode,
    pub on_level: Level,
    pub off_level: Level,
    pub sounds: bool,
    pub sound_on: SoundChoiceView,
    pub sound_off: SoundChoiceView,
    pub sound_volume: Level,
    pub list_keys: bool,
    pub list_devices: bool,
    pub print_config: bool,
    pub dry_run: bool,
    pub startup_state: StartupState,
    pub reverse: bool,
    pub suppress: bool,
}

/// Mathematical form of an optional text.
pub open spec fn text_view(text: Option<String>) -> Option<Seq<char>> {
    match text {
        None => None,
        Some(t) => Some(t@),
    }
}

impl View for Config {
    type V = ConfigView;

    open spec fn view(&self) -> ConfigView {
        ConfigView {
            keys: self.keys@,
            device_path: text_view(self.device_path),
            mode: self.mode,
            on_level: self.on_level,
            off_level: self.off_level,
            sounds: self.sounds,
            sound_on: self.sound_on@,
            sound_off: self.sound_off@,
            sound_volume: self.sound_volume,
            list_keys: self.list_keys,
            list_devices: self.list_devices,
            print_config: self.print_config,
            dry_run: self.dry_run,
            startup_state: self.startup_state,
            reverse: self.reverse,
            suppress: self.suppress,
        }
    }
}

impl Config {
    /// A snapshot is usable when its chord names at least one key.
    pub open spec fn wf(&self) -> bool {
        self.keys@.len() > 0
    }
}

/// Storing a choice and reading it back gives the same choice.
pub proof fn sound_setting_round_trip(choice: SoundChoiceView)
    ensures
        chosen_sound(stored_sound(choice)) == choice,
{
}

/// Every mode is read back from its own word.
pub proof fn mode_round_trip(mode: Mode)
    ensures
        mode_of_text(mode_text(mode)) == Some(mode),
{
    reveal_strlit("volume");
    reveal_strlit("mute");
    assert("volume"@.len() != "mute"@.len());
}

/// Every startup state is read back from its own word.
pub proof fn startup_state_round_trip(state: StartupState)
    ensures
        startup_state_of_text(startup_state_text(state)) == Some(state),
{
    reveal_strlit("muted");
    reveal_strlit("unmuted");
    assert("muted"@.len() != "unmuted"@.len());
}

} // verus!
