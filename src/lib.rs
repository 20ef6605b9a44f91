//! Playback metrics of a media player: a registry of counters and gauges, kept up to date from
//! the player's lifecycle events and rendered in the prometheus text exposition format.
use vstd::prelude::*;

pub mod event;
pub mod instruments;
pub mod lemmas;
pub mod registry;

pub use event::{AudioKind, PlaybackEvent, TrackId};
pub use registry::{handle_playback_event, Exporter, MetricRegistry, MetricsError, MetricsSnapshot};

verus! {

} // verus!
