//! What holds of the registry over events and scrapes.
use vstd::prelude::*;

use crate::event::PlaybackEvent;
use crate::registry::{apply_event, apply_events, exposition_text, MetricsState};

verus! {

/// A `Changed` event whose old and new track are the same.
pub open spec fn is_same_track_change(e: PlaybackEvent) -> bool {
    match e {
        PlaybackEvent::Changed { old_track_id, new_track_id } => old_track_id == new_track_id,
        _ => false,
    }
}

/// Any number of `Changed` events that keep the same track leave every instrument as it was,
/// the tracks played among them.
pub proof fn lemma_same_track_changes_keep_state(s: MetricsState, es: Seq<PlaybackEvent>)
    requires
        forall|i: int| 0 <= i < es.len() ==> is_same_track_change(#[trigger] es[i]),
    ensures
        apply_events(s, es) == s,
    decreases es.len(),
{
    if es.len() > 0 {
        let init = es.drop_last();
        assert forall|i: int| 0 <= i < init.len() implies is_same_track_change(#[trigger] init[i]) by {
            assert(init[i] == es[i]);
        }
        lemma_same_track_changes_keep_state(s, init);
        assert(is_same_track_change(es[es.len() - 1]));
    }
}

/// A `Changed` event between two different tracks adds exactly one to the tracks played and
/// changes nothing else (below the top of the counter's `u64`).
pub proof fn lemma_track_change_counts_once(s: MetricsState, e: PlaybackEvent)
    requires
        e is Changed,
        e->old_track_id != e->new_track_id,
        0 <= s.tracks_played_total < u64::MAX,
    ensures
        apply_event(s, e) == (MetricsState { tracks_played_total: s.tracks_played_total + 1, ..s }),
{
}

/// `Started` adds exactly one to the tracks played, whatever the state (below the top of the
/// counter's `u64`), and changes nothing else.
pub proof fn lemma_start_counts_once(s: MetricsState)
    requires
        0 <= s.tracks_played_total < u64::MAX,
    ensures
        apply_event(s, PlaybackEvent::Started) == (MetricsState {
            tracks_played_total: s.tracks_played_total + 1,
            ..s
        }),
{
}

/// `Paused` sets the playing gauge to 0 and adds exactly one to the pauses, whatever the
/// playing gauge held (below the top of the counter's `u64`).
pub proof fn lemma_pause_stops_and_counts(s: MetricsState)
    requires
        0 <= s.pause_count < u64::MAX,
    ensures
        apply_event(s, PlaybackEvent::Paused).is_playing == 0,
        apply_event(s, PlaybackEvent::Paused).pause_count == s.pause_count + 1,
{
}

/// `Playing` then `Stopped` leaves the playing gauge at 0 and both counters where they were.
pub proof fn lemma_play_then_stop(s: MetricsState)
    ensures
        apply_events(s, seq![PlaybackEvent::Playing, PlaybackEvent::Stopped]).is_playing == 0,
        apply_events(s, seq![PlaybackEvent::Playing, PlaybackEvent::Stopped]).tracks_played_total
            == s.tracks_played_total,
        apply_events(s, seq![PlaybackEvent::Playing, PlaybackEvent::Stopped]).pause_count
            == s.pause_count,
{
    let es = seq![PlaybackEvent::Playing, PlaybackEvent::Stopped];
    assert(es.drop_last() == seq![PlaybackEvent::Playing]);
    assert(es.drop_last().drop_last() =~= Seq::<PlaybackEvent>::empty());
    assert(apply_events(s, es.drop_last().drop_last()) == s);
    assert(es.drop_last().last() == PlaybackEvent::Playing);
    assert(apply_events(s, es.drop_last()) == apply_event(s, PlaybackEvent::Playing));
    assert(apply_events(s, es) == apply_event(
        apply_event(s, PlaybackEvent::Playing),
        PlaybackEvent::Stopped,
    ));
}

/// After any events that end with `VolumeSet`, the volume gauge holds that last volume.
pub proof fn lemma_last_volume_wins(s: MetricsState, es: Seq<PlaybackEvent>)
    requires
        es.len() > 0,
        es.last() is VolumeSet,
    ensures
        apply_events(s, es).playback_volume == es.last()->volume as int,
{
}

/// An event that the metrics do not count changes no instrument.
pub proof fn lemma_other_event_changes_nothing(s: MetricsState)
    ensures
        apply_event(s, PlaybackEvent::Other) == s,
{
}

/// No event lowers either counter, short of the top of its `u64`.
pub proof fn lemma_counters_never_decrease(s: MetricsState, e: PlaybackEvent)
    requires
        0 <= s.tracks_played_total < u64::MAX,
        0 <= s.pause_count < u64::MAX,
    ensures
        apply_event(s, e).tracks_played_total >= s.tracks_played_total,
        apply_event(s, e).pause_count >= s.pause_count,
{
}

/// Two scrapes with no event between them see one state, so they give the same text; an event
/// that the metrics do not count between them changes nothing either.
pub proof fn lemma_scrapes_agree(s: MetricsState, first: Seq<char>, second: Seq<char>)
    requires
        first == exposition_text(s),
        second == exposition_text(s) || second == exposition_text(
            apply_event(s, PlaybackEvent::Other),
        ),
    ensures
        first == second,
{
}

} // verus!
