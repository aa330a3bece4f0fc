//! Decoded sounds as plain values.
//!
//! Decoding is the caller's business: a decoder reads files that anyone may
//! have written, and the caller is the one who can contain what goes wrong
//! in it. What the decoder gave is handed in as plain numbers, so that the
//! library can judge, store, compare and hand out sounds without knowing
//! anything about audio.

use vstd::prelude::*;

verus! {

/// A decoded sound: interleaved samples, each the bit pattern of an
/// IEEE 754 single-precision value.
#[derive(Debug, PartialEq, Eq)]
pub struct Clip {
    pub channels: u16,
    pub sample_rate: u32,
    pub samples: Vec<u32>,
}

/// Mathematical form of a [`Clip`].
pub struct ClipView {
    pub channels: u16,
    pub sample_rate: u32,
    pub samples: Seq<u32>,
}

impl View for Clip {
    type V = ClipView;

    open spec fn view(&self) -> ClipView {
        ClipView { channels: self.channels, sample_rate: self.sample_rate, samples: self.samples@ }
    }
}

impl Clone for Clip {
    fn clone(&self) -> (copy: Self)
        ensures
            copy@ == self@,
    {
        Clip {
            channels: self.channels,
            sample_rate: self.sample_rate,
            samples: self.samples.clone(),
        }
    }
}

/// Mathematical form of an optional clip.
pub open spec fn clip_view(clip: Option<Clip>) -> Option<ClipView> {
    match clip {
        Some(c) => Some(c@),
        None => None,
    }
}

/// Mathematical form of what reading and decoding a file gave: nothing if
/// the file could not be read, else what the decoder made of it.
pub open spec fn file_view(file: Option<Option<Clip>>) -> Option<Option<ClipView>> {
    match file {
        Some(decoded) => Some(clip_view(decoded)),
        None => None,
    }
}

/// Why bytes gave no sound.
#[derive(Copy, Clone, Debug, PartialEq, Eq, Structural)]
pub enum DecodeError {
    /// The decoder does not recognise the bytes as audio.
    Unrecognized,
    /// The decoder gave a sound that cannot be played: it has no channel,
    /// no sample rate, or is too long to tell its duration.
    Unplayable,
}

/// The most samples of which a duration in nanoseconds still fits 64 bits.
pub const MAX_SAMPLES: u64 = 18_446_744_073;

/// The sound can be handed to playback.
pub open spec fn playable(clip: ClipView) -> bool {
    clip.channels >= 1 && clip.sample_rate >= 1 && clip.samples.len() <= MAX_SAMPLES
}

/// The sound that a decoder's answer stands for, or why it stands for none.
pub open spec fn sound_of(decoded: Option<ClipView>) -> Result<ClipView, DecodeError> {
    match decoded {
        None => Err(DecodeError::Unrecognized),
        Some(clip) => if playable(clip) {
            Ok(clip)
        } else {
            Err(DecodeError::Unplayable)
        },
    }
}

/// Whether a sound can be handed to playback.
pub fn is_playable(clip: &Clip) -> (ok: bool)
    ensures
        ok == playable(clip@),
{
    clip.channels >= 1 && clip.sample_rate >= 1 && clip.samples.len() as u64 <= MAX_SAMPLES
}

/// Judges what a decoder gave. No answer means the bytes were no audio;
/// audio that cannot be played is an error of its own.
pub fn decode_samples(decoded: Option<Clip>) -> (sound: Result<Clip, DecodeError>)
    ensures
        match decoded {
            None => sound == Err::<Clip, DecodeError>(DecodeError::Unrecognized),
            Some(clip) => if playable(clip@) {
                sound is Ok && sound->Ok_0@ == clip@
            } else {
                sound == Err::<Clip, DecodeError>(DecodeError::Unplayable)
            },
        },
{
    match decoded {
        None => Err(DecodeError::Unrecognized),
        Some(clip) => {
            if is_playable(&clip) {
                Ok(clip)
            } else {
                Err(DecodeError::Unplayable)
            }
        },
    }
}

/// A copy of what a decoder gave.
pub fn clone_decoded(decoded: &Option<Clip>) -> (copy: Option<Clip>)
    ensures
        clip_view(copy) == clip_view(*decoded),
{
    match decoded {
        Some(clip) => Some(clip.clone()),
        None => None,
    }
}

} // verus!
