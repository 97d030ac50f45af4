//! The two sounds and how they are prepared from the configuration.

use vstd::prelude::*;
use crate::config::Config;
use crate::device::TransitionKind;
use crate::paths::{expand_home, expanded};

verus! {

/// Which of the two sounds to play.
#[derive(Debug, Clone, Copy, PartialEq, Eq, Structural)]
pub enum SoundCue {
    Connect,
    Disconnect,
}

/// The sound that belongs to a transition.
pub open spec fn cue_of(kind: TransitionKind) -> SoundCue {
    match kind {
        TransitionKind::Added => SoundCue::Connect,
        TransitionKind::Removed => SoundCue::Disconnect,
    }
}

/// What a sound is opened with: its file and its volume in percent.
#[derive(Debug, Clone, PartialEq, Eq)]
pub struct SoundSource {
    pub path: String,
    pub volume: u32,
}

/// The sources of both sounds.
#[derive(Debug, Clone, PartialEq, Eq)]
pub struct Sounds {
    pub connect: SoundSource,
    pub disconnect: SoundSource,
}

/// Prepares both sounds from `config`: each gets its configured path, with
/// a leading `~` expanded to `home`, and both get the configured volume.
pub fn sounds(config: &Config, home: &str) -> (both: Sounds)
    ensures
        both.connect.path@ == expanded(config.connect_sound@, home@),
        both.disconnect.path@ == expanded(config.disconnect_sound@, home@),
        both.connect.volume == config.volume,
        both.disconnect.volume == config.volume,
{
    Sounds {
        connect: SoundSource {
            path: expand_home(config.connect_sound.as_str(), home),
            volume: config.volume,
        },
        disconnect: SoundSource {
            path: expand_home(config.disconnect_sound.as_str(), home),
            volume: config.volume,
        },
    }
}

} // verus!
