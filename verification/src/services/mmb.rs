//! Services that tell others what is being played.

pub mod lastfm;

use crate::media::metadata::Metadata;
use vstd::prelude::*;

verus! {

/// What the player is doing.
#[derive(PartialEq, Eq, Debug, Clone, Copy, Structural)]
pub enum PlaybackState {
    Stopped,
    Playing,
    Paused,
}

/// What the player tells the services that follow it.
#[derive(PartialEq, Eq, Debug, Clone)]
pub enum MMBSEvent {
    /// The track at this path has started.
    NewTrack(String),
    /// The tags of the current track have been read.
    MetadataRecieved(Metadata),
    StateChanged(PlaybackState),
    /// Playback has reached this position, in seconds.
    PositionChanged(u64),
    /// The current track is this long, in seconds.
    DurationChanged(u64),
}

} // verus!
