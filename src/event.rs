//! Player lifecycle events, as far as the metrics read them.
use vstd::prelude::*;

verus! {

/// What a Spotify id points at.
#[derive(Clone, Copy, Debug, PartialEq, Eq, Structural)]
pub enum AudioKind {
    Track,
    Podcast,
    NonPlayable,
}

/// A Spotify id: the 128-bit id and the kind of item it names.
#[derive(Clone, Copy, Debug, PartialEq, Eq, Structural)]
pub struct TrackId {
    pub id: u128,
    pub kind: AudioKind,
}

/// One event of the player.
#[derive(Clone, Copy, Debug, PartialEq, Eq, Structural)]
pub enum PlaybackEvent {
    /// Playback of a track began from a stopped player.
    Started,
    /// The loaded track was replaced by another.
    Changed { old_track_id: TrackId, new_track_id: TrackId },
    /// The player is playing.
    Playing,
    /// The player paused.
    Paused,
    /// The player stopped.
    Stopped,
    /// The requested track could not be loaded.
    Unavailable,
    /// The mixer volume was set.
    VolumeSet { volume: u16 },
    /// Any event that the metrics do not count.
    Other,
}

} // verus!
