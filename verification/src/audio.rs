//! Audio feedback: the cache of decoded sounds, and which sound a
//! transition gets.
//!
//! Reading and decoding sound files and playing sounds belong to the
//! caller. The cache is generic in the form `S` of a sound: it stores such
//! values, picks among them and hands them out, and never looks inside.
//! The cache that is built from decoded sounds holds [`Clip`]s.

use crate::config::{Config, ConfigView, Level, SoundChoice, SoundChoiceView};
use crate::decode::{
    clip_view, clone_decoded, decode_samples, file_view, playable, sound_of, Clip, ClipView,
    DecodeError,
};
use vstd::prelude::*;

verus! {

/// One of the four places of the sound cache.
#[derive(Copy, Clone, Debug, PartialEq, Eq, Structural)]
pub enum Slot {
    /// The configured sound for switching on.
    On,
    /// The configured sound for switching off.
    Off,
    /// The built-in sound for switching on.
    DefaultOn,
    /// The built-in sound for switching off.
    DefaultOff,
}

/// Why a configured sound could not be loaded.
#[derive(Copy, Clone, Debug, PartialEq, Eq, Structural)]
pub enum LoadError {
    /// The file could not be read.
    Unreadable,
    /// The bytes could not be decoded.
    Undecodable(DecodeError),
}

/// Why the sound cache could not be rebuilt.
#[derive(Copy, Clone, Debug, PartialEq, Eq, Structural)]
pub enum CacheError {
    /// The sound for switching on could not be loaded.
    SoundOn(LoadError),
    /// The sound for switching off could not be loaded.
    SoundOff(LoadError),
}

/// What decoding gave, from which the cache is built: the two sounds that
/// are built into the program, and the two configured files. For a file
/// the outer value tells whether it could be read, the inner one what the
/// decoder made of its contents.
#[derive(Debug)]
pub struct DecodedSounds {
    pub builtin_on: Option<Clip>,
    pub builtin_off: Option<Clip>,
    pub file_on: Option<Option<Clip>>,
    pub file_off: Option<Option<Clip>>,
}

/// Mathematical form of [`DecodedSounds`].
pub struct DecodedView {
    pub builtin_on: Option<ClipView>,
    pub builtin_off: Option<ClipView>,
    pub file_on: Option<Option<ClipView>>,
    pub file_off: Option<Option<ClipView>>,
}

impl View for DecodedSounds {
    type V = DecodedView;

    open spec fn view(&self) -> DecodedView {
        DecodedView {
            builtin_on: clip_view(self.builtin_on),
            builtin_off: clip_view(self.builtin_off),
            file_on: file_view(self.file_on),
            file_off: file_view(self.file_off),
        }
    }
}

/// What is to be done for the sound of one transition.
#[derive(Clone, Debug)]
pub enum SoundPlan {
    /// Nothing.
    Silent,
    /// Queue the sound of this slot of the cache at this volume.
    Queue(Slot, Level),
    /// Decode this file now and queue it at this volume.
    DecodeFile(String, Level),
    /// Run the fallback chain for switching on (`true`) or off, off the
    /// calling thread.
    Fallback(bool, Level),
}

/// Mathematical form of a [`SoundPlan`].
pub enum SoundPlanView {
    Silent,
    Queue(Slot, Level),
    DecodeFile(Seq<char>, Level),
    Fallback(bool, Level),
}

impl View for SoundPlan {
    type V = SoundPlanView;

    open spec fn view(&self) -> SoundPlanView {
        match self {
            SoundPlan::Silent => SoundPlanView::Silent,
            SoundPlan::Queue(slot, volume) => SoundPlanView::Queue(*slot, *volume),
            SoundPlan::DecodeFile(path, volume) => SoundPlanView::DecodeFile(path@, *volume),
            SoundPlan::Fallback(on, volume) => SoundPlanView::Fallback(*on, *volume),
        }
    }
}

/// The decoded sounds, one optional sound per slot.
#[derive(Debug)]
pub struct SoundCache<S> {
    pub on: Option<S>,
    pub off: Option<S>,
    pub default_on: Option<S>,
    pub default_off: Option<S>,
}

/// The configured slot for an edge.
pub open spec fn configured_slot(on: bool) -> Slot {
    if on {
        Slot::On
    } else {
        Slot::Off
    }
}

/// The built-in slot for an edge.
pub open spec fn default_slot(on: bool) -> Slot {
    if on {
        Slot::DefaultOn
    } else {
        Slot::DefaultOff
    }
}

/// The plan for the sound of a transition, given whether the configured
/// slot of that edge is filled.
pub open spec fn transition_plan(config: ConfigView, on: bool, cached: bool) -> SoundPlanView {
    let choice = if on {
        config.sound_on
    } else {
        config.sound_off
    };
    if !config.sounds {
        SoundPlanView::Silent
    } else {
        match choice {
            SoundChoiceView::Disabled => SoundPlanView::Silent,
            SoundChoiceView::Default => if cached {
                SoundPlanView::Queue(configured_slot(on), config.sound_volume)
            } else {
                SoundPlanView::Fallback(on, config.sound_volume)
            },
            SoundChoiceView::File(path) => if cached {
                SoundPlanView::Queue(configured_slot(on), config.sound_volume)
            } else {
                SoundPlanView::DecodeFile(path, config.sound_volume)
            },
        }
    }
}

impl<S> SoundCache<S> {
    /// What a slot holds.
    pub open spec fn slot(&self, slot: Slot) -> Option<S> {
        match slot {
            Slot::On => self.on,
            Slot::Off => self.off,
            Slot::DefaultOn => self.default_on,
            Slot::DefaultOff => self.default_off,
        }
    }

    /// No slot holds anything.
    pub open spec fn is_empty(&self) -> bool {
        self.on is None && self.off is None && self.default_on is None && self.default_off is None
    }

    /// A cache in which every lookup misses.
    pub fn empty() -> (cache: Self)
        ensures
            cache.is_empty(),
    {
        SoundCache { on: None, off: None, default_on: None, default_off: None }
    }

    /// The sound in a slot, if the slot is filled.
    pub fn get(&self, slot: Slot) -> (sound: Option<&S>)
        ensures
            sound is Some <==> self.slot(slot) is Some,
            sound is Some ==> *sound->Some_0 == self.slot(slot)->Some_0,
    {
        match slot {
            Slot::On => self.on.as_ref(),
            Slot::Off => self.off.as_ref(),
            Slot::DefaultOn => self.default_on.as_ref(),
            Slot::DefaultOff => self.default_off.as_ref(),
        }
    }

    /// The configured sound for an edge, if it is cached.
    pub fn cached_samples(&self, on: bool) -> (sound: Option<&S>)
        ensures
            sound is Some <==> self.slot(configured_slot(on)) is Some,
            sound is Some ==> *sound->Some_0 == self.slot(configured_slot(on))->Some_0,
    {
        if on {
            self.on.as_ref()
        } else {
            self.off.as_ref()
        }
    }

    /// The built-in sound for an edge, if it is cached.
    pub fn cached_default_samples(&self, on: bool) -> (sound: Option<&S>)
        ensures
            sound is Some <==> self.slot(default_slot(on)) is Some,
            sound is Some ==> *sound->Some_0 == self.slot(default_slot(on))->Some_0,
    {
        if on {
            self.default_on.as_ref()
        } else {
            self.default_off.as_ref()
        }
    }

    /// Replaces the whole cache.
    pub fn set_sound_cache(&mut self, cache: SoundCache<S>)
        ensures
            *final(self) == cache,
    {
        *self = cache;
    }
}

/// Mathematical form of a cache of clips.
pub struct SoundCacheView {
    pub on: Option<ClipView>,
    pub off: Option<ClipView>,
    pub default_on: Option<ClipView>,
    pub default_off: Option<ClipView>,
}

impl View for SoundCache<Clip> {
    type V = SoundCacheView;

    open spec fn view(&self) -> SoundCacheView {
        SoundCacheView {
            on: clip_view(self.on),
            off: clip_view(self.off),
            default_on: clip_view(self.default_on),
            default_off: clip_view(self.default_off),
        }
    }
}

/// The sound of a configured slot: none when disabled, the built-in sound
/// for the default, the file's sound otherwise. A sound that is wanted and
/// cannot be had is an error.
pub open spec fn loaded(
    choice: SoundChoiceView,
    builtin: Option<ClipView>,
    file: Option<Option<ClipView>>,
) -> Result<Option<ClipView>, LoadError> {
    match choice {
        SoundChoiceView::Disabled => Ok(None),
        SoundChoiceView::Default => match sound_of(builtin) {
            Ok(clip) => Ok(Some(clip)),
            Err(error) => Err(LoadError::Undecodable(error)),
        },
        SoundChoiceView::File(_) => match file {
            None => Err(LoadError::Unreadable),
            Some(decoded) => match sound_of(decoded) {
                Ok(clip) => Ok(Some(clip)),
                Err(error) => Err(LoadError::Undecodable(error)),
            },
        },
    }
}

/// The sound of a built-in slot: the built-in sound if it was decoded and
/// can be played.
pub open spec fn default_loaded(builtin: Option<ClipView>) -> Option<ClipView> {
    match sound_of(builtin) {
        Ok(clip) => Some(clip),
        Err(_) => None,
    }
}

/// The sound of a file that is played without being cached: its sound if
/// the file could be read, was decoded and can be played.
pub open spec fn file_sound(file: Option<Option<ClipView>>) -> Option<ClipView> {
    match file {
        Some(decoded) => default_loaded(decoded),
        None => None,
    }
}

/// The cache that a snapshot and the decoded sounds make.
pub open spec fn cache_for(config: ConfigView, decoded: DecodedView) -> Result<
    SoundCacheView,
    CacheError,
> {
    if !config.sounds {
        Ok(SoundCacheView { on: None, off: None, default_on: None, default_off: None })
    } else {
        match loaded(config.sound_on, decoded.builtin_on, decoded.file_on) {
            Err(error) => Err(CacheError::SoundOn(error)),
            Ok(on) => match loaded(config.sound_off, decoded.builtin_off, decoded.file_off) {
                Err(error) => Err(CacheError::SoundOff(error)),
                Ok(off) => Ok(
                    SoundCacheView {
                        on,
                        off,
                        default_on: default_loaded(decoded.builtin_on),
                        default_off: default_loaded(decoded.builtin_off),
                    },
                ),
            },
        }
    }
}

/// Loads the sound of a configured slot from what decoding gave.
pub fn load_sound_samples(
    choice: &SoundChoice,
    builtin: &Option<Clip>,
    file: &Option<Option<Clip>>,
) -> (sound: Result<Option<Clip>, LoadError>)
    ensures
        match loaded(choice@, clip_view(*builtin), file_view(*file)) {
            Ok(clip) => sound is Ok && clip_view(sound->Ok_0) == clip,
            Err(error) => sound == Err::<Option<Clip>, LoadError>(error),
        },
{
    match choice {
        SoundChoice::Disabled => Ok(None),
        SoundChoice::Default => match decode_samples(clone_decoded(builtin)) {
            Ok(clip) => Ok(Some(clip)),
            Err(error) => Err(LoadError::Undecodable(error)),
        },
        SoundChoice::File(_) => match file {
            None => Err(LoadError::Unreadable),
            Some(decoded) => match decode_samples(clone_decoded(decoded)) {
                Ok(clip) => Ok(Some(clip)),
                Err(error) => Err(LoadError::Undecodable(error)),
            },
        },
    }
}

/// Loads a built-in sound; one that was not decoded or cannot be played is
/// left out.
pub fn load_default_samples(builtin: Option<Clip>) -> (sound: Option<Clip>)
    ensures
        clip_view(sound) == default_loaded(clip_view(builtin)),
{
    match decode_samples(builtin) {
        Ok(clip) => Some(clip),
        Err(_) => None,
    }
}

/// The sound of a file that is played without being cached: its sound if
/// the file could be read, was decoded and can be played.
pub fn play_sound_file(file: Option<Option<Clip>>) -> (sound: Option<Clip>)
    ensures
        clip_view(sound) == file_sound(file_view(file)),
{
    match file {
        Some(decoded) => load_default_samples(decoded),
        None => None,
    }
}

/// Builds the sound cache for a snapshot. With sounds switched off the
/// cache is empty. Otherwise a configured sound that cannot be loaded
/// fails the whole rebuild, the one for switching on first; a built-in
/// sound that was not decoded only leaves its slot empty.
pub fn init_audio_cache(config: &Config, decoded: DecodedSounds) -> (built: Result<
    SoundCache<Clip>,
    CacheError,
>)
    ensures
        match cache_for(config@, decoded@) {
            Ok(cache) => built is Ok && built->Ok_0@ == cache,
            Err(error) => built == Err::<SoundCache<Clip>, CacheError>(error),
        },
{
    if !config.sounds {
        return Ok(SoundCache::empty());
    }
    let on = match load_sound_samples(&config.sound_on, &decoded.builtin_on, &decoded.file_on) {
        Ok(sound) => sound,
        Err(error) => {
            return Err(CacheError::SoundOn(error));
        },
    };
    let off = match load_sound_samples(&config.sound_off, &decoded.builtin_off, &decoded.file_off) {
        Ok(sound) => sound,
        Err(error) => {
            return Err(CacheError::SoundOff(error));
        },
    };
    let default_on = load_default_samples(decoded.builtin_on);
    let default_off = load_default_samples(decoded.builtin_off);
    Ok(SoundCache { on, off, default_on, default_off })
}

/// Decides the sound of a transition. A cached sound is queued as it is; a
/// file that is not cached is decoded on the spot; a disabled sound, or any
/// sound while sounds are off, is silent; the default without a cached
/// sound goes to the fallback chain.
pub fn play_transition_sound<S>(config: &Config, on: bool, cache: &SoundCache<S>) -> (plan:
    SoundPlan)
    ensures
        plan@ == transition_plan(config@, on, cache.slot(configured_slot(on)) is Some),
{
    if !config.sounds {
        return SoundPlan::Silent;
    }
    let cached = cache.cached_samples(on).is_some();
    let slot = if on {
        Slot::On
    } else {
        Slot::Off
    };
    let choice = if on {
        &config.sound_on
    } else {
        &config.sound_off
    };
    match choice {
        SoundChoice::Default => {
            if cached {
                SoundPlan::Queue(slot, config.sound_volume)
            } else {
                SoundPlan::Fallback(on, config.sound_volume)
            }
        },
        SoundChoice::Disabled => SoundPlan::Silent,
        SoundChoice::File(path) => {
            if cached {
                SoundPlan::Queue(slot, config.sound_volume)
            } else {
                SoundPlan::DecodeFile(path.clone(), config.sound_volume)
            }
        },
    }
}

/// With sounds off every lookup misses and every transition is silent.
pub proof fn sounds_off_is_silent(config: ConfigView, decoded: DecodedView, on: bool, cached: bool)
    requires
        !config.sounds,
    ensures
        cache_for(config, decoded) == Ok::<SoundCacheView, CacheError>(
            SoundCacheView { on: None, off: None, default_on: None, default_off: None },
        ),
        transition_plan(config, on, cached) == SoundPlanView::Silent,
{
}

/// A rebuild fails exactly when sounds are on and a configured sound
/// cannot be loaded; a built-in sound that was not decoded never fails it
/// where no edge uses it.
pub proof fn rebuild_fails_on_load_failure(config: ConfigView, decoded: DecodedView)
    ensures
        cache_for(config, decoded) is Err <==> config.sounds && (loaded(
            config.sound_on,
            decoded.builtin_on,
            decoded.file_on,
        ) is Err || loaded(config.sound_off, decoded.builtin_off, decoded.file_off) is Err),
        config.sounds && config.sound_on == SoundChoiceView::Disabled && config.sound_off
            == SoundChoiceView::Disabled ==> cache_for(config, decoded) is Ok,
{
}

/// Every sound in a cache that was built can be played.
pub proof fn cached_sounds_are_playable(config: ConfigView, decoded: DecodedView)
    requires
        cache_for(config, decoded) is Ok,
    ensures
        ({
            let cache = cache_for(config, decoded)->Ok_0;
            &&& cache.on matches Some(clip) ==> playable(clip)
            &&& cache.off matches Some(clip) ==> playable(clip)
            &&& cache.default_on matches Some(clip) ==> playable(clip)
            &&& cache.default_off matches Some(clip) ==> playable(clip)
        }),
{
}

} // verus!
