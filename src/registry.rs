//! The registry of playback metrics and how player events change it.
use vstd::prelude::*;

use crate::event::PlaybackEvent;
use crate::instruments::{
    counter_value, descriptor_id, gauge_value, new_registry, registered_names, wrapping_inc_i64,
    wrapping_inc_u64, Counter, Gauge,
};

verus! {

/// The values of the five instruments.
pub struct MetricsState {
    pub tracks_played_total: int,
    pub pause_count: int,
    pub playback_volume: int,
    pub unavailable_tracks: int,
    pub is_playing: int,
}

impl MetricsState {
    /// Every instrument at 0, as created.
    pub open spec fn initial() -> MetricsState {
        MetricsState {
            tracks_played_total: 0,
            pause_count: 0,
            playback_volume: 0,
            unavailable_tracks: 0,
            is_playing: 0,
        }
    }

}

/// The state after one event.
pub open spec fn apply_event(s: MetricsState, e: PlaybackEvent) -> MetricsState {
    match e {
        PlaybackEvent::Started => MetricsState {
            tracks_played_total: wrapping_inc_u64(s.tracks_played_total),
            ..s
        },
        PlaybackEvent::Changed { old_track_id, new_track_id } => if old_track_id != new_track_id {
            MetricsState { tracks_played_total: wrapping_inc_u64(s.tracks_played_total), ..s }
        } else {
            s
        },
        PlaybackEvent::Playing => MetricsState { is_playing: 1, ..s },
        PlaybackEvent::Paused => MetricsState {
            pause_count: wrapping_inc_u64(s.pause_count),
            is_playing: 0,
            ..s
        },
        PlaybackEvent::Stopped => MetricsState { is_playing: 0, ..s },
        PlaybackEvent::Unavailable => MetricsState {
            unavailable_tracks: wrapping_inc_i64(s.unavailable_tracks),
            ..s
        },
        PlaybackEvent::VolumeSet { volume } => MetricsState { playback_volume: volume as int, ..s },
        PlaybackEvent::Other => s,
    }
}

/// The state after a sequence of events, applied in order.
pub open spec fn apply_events(s: MetricsState, es: Seq<PlaybackEvent>) -> MetricsState
    decreases es.len(),
{
    if es.len() == 0 {
        s
    } else {
        apply_event(apply_events(s, es.drop_last()), es.last())
    }
}

/// The names of the five instruments, in the order of `MetricsState`'s fields.
pub open spec fn instrument_names() -> Seq<Seq<char>> {
    seq![
        "tracks_played_total"@,
        "pause_count"@,
        "playback_volume"@,
        "unavailable_tracks"@,
        "is_playing"@,
    ]
}

/// No two instrument names share a descriptor id.
pub open spec fn descriptor_ids_distinct() -> bool {
    forall|i: int, j: int|
        0 <= i < j < 5 ==> descriptor_id(instrument_names()[i]) != descriptor_id(
            instrument_names()[j],
        )
}

/// Why the registry could not do its work.
#[derive(Clone, Copy, Debug, PartialEq, Eq, Structural)]
pub enum MetricsError {
    /// An instrument could not be created or registered.
    Registration,
    /// The exposition text could not be produced.
    Encoding,
}

/// The playback metrics: two counters and three gauges, registered in one prometheus registry.
pub struct MetricRegistry {
    registry: prometheus::Registry,
    tracks_played_total: Counter,
    pause_count: Counter,
    playback_volume: Gauge,
    unavailable_tracks: Gauge,
    is_playing: Gauge,
}

/// The values of the five instruments at one moment.
#[derive(Clone, Copy, Debug, PartialEq, Eq, Structural)]
pub struct MetricsSnapshot {
    pub tracks_played_total: u64,
    pub pause_count: u64,
    pub playback_volume: i64,
    pub unavailable_tracks: i64,
    pub is_playing: i64,
}

impl View for MetricsSnapshot {
    type V = MetricsState;

    open spec fn view(&self) -> MetricsState {
        MetricsState {
            tracks_played_total: self.tracks_played_total as int,
            pause_count: self.pause_count as int,
            playback_volume: self.playback_volume as int,
            unavailable_tracks: self.unavailable_tracks as int,
            is_playing: self.is_playing as int,
        }
    }
}

impl View for MetricRegistry {
    type V = MetricsState;

    closed spec fn view(&self) -> MetricsState {
        MetricsState {
            tracks_played_total: counter_value(self.tracks_played_total),
            pause_count: counter_value(self.pause_count),
            playback_volume: gauge_value(self.playback_volume),
            unavailable_tracks: gauge_value(self.unavailable_tracks),
            is_playing: gauge_value(self.is_playing),
        }
    }
}

/// The text exposition of the five instruments holding the values of `s`.
pub uninterp spec fn exposition_text(s: MetricsState) -> Seq<char>;

/// Relies on prometheus::Registry::gather and prometheus::TextEncoder::encode_to_string. The
/// registry of `m` holds exactly its five instruments, with fixed names and help texts; gather
/// sorts the families by name and drops empty ones, and encoding into a `String` fails only on
/// an empty family. So the text succeeds and depends on the five values alone.
#[verifier::external_body]
fn gather_metrics_text(m: &MetricRegistry) -> (r: Result<String, prometheus::Error>)
    ensures
        r is Ok,
        r is Ok ==> r->Ok_0@ == exposition_text(m@),
{
    prometheus::TextEncoder::new().encode_to_string(&m.registry.gather())
}

/// Relies on prometheus::Registry::gather and prometheus::TextEncoder::encode_to_string on a
/// handle that shares its instruments with a `MetricRegistry`: gather drops empty families and
/// encoding into a `String` fails only on an empty family, so it succeeds. The values are
/// shared with the registry that records events, so nothing is stated of the text.
#[verifier::external_body]
fn gather_text(registry: &prometheus::Registry) -> (r: Result<String, prometheus::Error>)
    ensures
        r is Ok,
{
    prometheus::TextEncoder::new().encode_to_string(&registry.gather())
}

/// Relies on prometheus::Registry::clone: another handle on the same registry.
#[verifier::external_body]
fn clone_registry(registry: &prometheus::Registry) -> prometheus::Registry {
    registry.clone()
}

/// Renders the instruments of a `MetricRegistry` for scrapes. It reads them without a lock
/// while events are recorded through the registry itself.
pub struct Exporter {
    registry: prometheus::Registry,
}

impl Exporter {
    /// The instruments' current values in the prometheus text exposition format.
    pub fn render(&self) -> (r: Result<String, MetricsError>)
        ensures
            r is Ok,
    {
        match gather_text(&self.registry) {
            Ok(text) => Ok(text),
            Err(_) => Err(MetricsError::Encoding),
        }
    }
}

impl MetricRegistry {
    /// Creates the five instruments, each at 0, and registers them in a new prometheus registry.
    /// The registry takes them all unless two of their names share a descriptor id.
    pub fn new() -> (r: Result<MetricRegistry, MetricsError>)
        ensures
            r is Ok <==> descriptor_ids_distinct(),
            r is Ok ==> r->Ok_0@ == MetricsState::initial(),
            r is Err ==> r->Err_0 == MetricsError::Registration,
    {
        proof {
            reveal_strlit("tracks_played_total");
            reveal_strlit("pause_count");
            reveal_strlit("playback_volume");
            reveal_strlit("unavailable_tracks");
            reveal_strlit("is_playing");
            reveal_strlit("Number of Spotify tracks played");
            reveal_strlit("Number of pause events");
            reveal_strlit("Volume level of the Spotify player");
            reveal_strlit("Number of unavailable tracks that attempted to play");
            reveal_strlit("Whether or not the player is currently playing");
        }
        let mut registry = new_registry();
        let tracks_played_total = match Counter::create(
            "tracks_played_total",
            "Number of Spotify tracks played",
        ) {
            Ok(c) => c,
            Err(_) => return Err(MetricsError::Registration),
        };
        let pause_count = match Counter::create("pause_count", "Number of pause events") {
            Ok(c) => c,
            Err(_) => return Err(MetricsError::Registration),
        };
        let playback_volume = match Gauge::create(
            "playback_volume",
            "Volume level of the Spotify player",
        ) {
            Ok(g) => g,
            Err(_) => return Err(MetricsError::Registration),
        };
        let unavailable_tracks = match Gauge::create(
            "unavailable_tracks",
            "Number of unavailable tracks that attempted to play",
        ) {
            Ok(g) => g,
            Err(_) => return Err(MetricsError::Registration),
        };
        let is_playing = match Gauge::create(
            "is_playing",
            "Whether or not the player is currently playing",
        ) {
            Ok(g) => g,
            Err(_) => return Err(MetricsError::Registration),
        };
        let ghost names = instrument_names();
        if tracks_played_total.register(&mut registry).is_err() {
            return Err(MetricsError::Registration);
        }
        let ghost held = registered_names(registry);
        assert(held.contains(names[0]));
        if pause_count.register(&mut registry).is_err() {
            return Err(MetricsError::Registration);
        }
        assert(descriptor_id(names[0]) != descriptor_id(names[1]));
        let ghost held = registered_names(registry);
        assert(held.contains(names[0]) && held.contains(names[1]));
        if playback_volume.register(&mut registry).is_err() {
            proof {
                let n = choose|n: Seq<char>|
                    held.contains(n) && descriptor_id(n) == descriptor_id(names[2]);
                assert(n == names[0] || n == names[1]);
            }
            return Err(MetricsError::Registration);
        }
        assert(descriptor_id(names[0]) != descriptor_id(names[2]));
        assert(descriptor_id(names[1]) != descriptor_id(names[2]));
        let ghost held = registered_names(registry);
        assert(held.contains(names[0]) && held.contains(names[1]) && held.contains(names[2]));
        if unavailable_tracks.register(&mut registry).is_err() {
            proof {
                let n = choose|n: Seq<char>|
                    held.contains(n) && descriptor_id(n) == descriptor_id(names[3]);
                assert(n == names[0] || n == names[1] || n == names[2]);
            }
            return Err(MetricsError::Registration);
        }
        assert(descriptor_id(names[0]) != descriptor_id(names[3]));
        assert(descriptor_id(names[1]) != descriptor_id(names[3]));
        assert(descriptor_id(names[2]) != descriptor_id(names[3]));
        let ghost held = registered_names(registry);
        assert(held.contains(names[0]) && held.contains(names[1]) && held.contains(names[2])
            && held.contains(names[3]));
        if is_playing.register(&mut registry).is_err() {
            proof {
                let n = choose|n: Seq<char>|
                    held.contains(n) && descriptor_id(n) == descriptor_id(names[4]);
                assert(n == names[0] || n == names[1] || n == names[2] || n == names[3]);
            }
            return Err(MetricsError::Registration);
        }
        assert(descriptor_id(names[0]) != descriptor_id(names[4]));
        assert(descriptor_id(names[1]) != descriptor_id(names[4]));
        assert(descriptor_id(names[2]) != descriptor_id(names[4]));
        assert(descriptor_id(names[3]) != descriptor_id(names[4]));
        Ok(MetricRegistry {
            registry,
            tracks_played_total,
            pause_count,
            playback_volume,
            unavailable_tracks,
            is_playing,
        })
    }

    /// The current value of every instrument.
    pub fn snapshot(&self) -> (r: MetricsSnapshot)
        ensures
            r@ == self@,
    {
        MetricsSnapshot {
            tracks_played_total: self.tracks_played_total.get(),
            pause_count: self.pause_count.get(),
            playback_volume: self.playback_volume.get(),
            unavailable_tracks: self.unavailable_tracks.get(),
            is_playing: self.is_playing.get(),
        }
    }

    /// An exporter over the same instruments.
    pub fn exporter(&self) -> Exporter {
        Exporter { registry: clone_registry(&self.registry) }
    }

    /// The current values in the prometheus text exposition format.
    pub fn encode(&self) -> (r: Result<String, MetricsError>)
        ensures
            r is Ok,
            r is Ok ==> r->Ok_0@ == exposition_text(self@),
    {
        match gather_metrics_text(self) {
            Ok(text) => Ok(text),
            Err(_) => Err(MetricsError::Encoding),
        }
    }
}

/// Records one player event in the registry.
pub fn handle_playback_event(metrics: &mut MetricRegistry, event: &PlaybackEvent)
    ensures
        final(metrics)@ == apply_event(old(metrics)@, *event),
{
    match event {
        PlaybackEvent::Started => {
            metrics.tracks_played_total.inc();
        },
        PlaybackEvent::Changed { old_track_id, new_track_id } => {
            if old_track_id != new_track_id {
                metrics.tracks_played_total.inc();
            }
        },
        PlaybackEvent::Playing => {
            metrics.is_playing.set(1);
        },
        PlaybackEvent::Paused => {
            metrics.pause_count.inc();
            metrics.is_playing.set(0);
        },
        PlaybackEvent::Stopped => {
            metrics.is_playing.set(0);
        },
        PlaybackEvent::Unavailable => {
            metrics.unavailable_tracks.inc();
        },
        PlaybackEvent::VolumeSet { volume } => {
            metrics.playback_volume.set(*volume as i64);
        },
        PlaybackEvent::Other => {},
    }
}

} // verus!
