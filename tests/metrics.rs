use playback_metrics::{
    handle_playback_event, AudioKind, MetricRegistry, MetricsError, MetricsSnapshot,
    PlaybackEvent, TrackId,
};

fn track(id: u128) -> TrackId {
    TrackId { id, kind: AudioKind::Track }
}

fn fresh() -> MetricRegistry {
    MetricRegistry::new().expect("registry")
}

fn zero() -> MetricsSnapshot {
    MetricsSnapshot {
        tracks_played_total: 0,
        pause_count: 0,
        playback_volume: 0,
        unavailable_tracks: 0,
        is_playing: 0,
    }
}

#[test]
fn new_registry_starts_at_zero() {
    assert_eq!(fresh().snapshot(), zero());
}

#[test]
fn started_counts_a_track() {
    let mut m = fresh();
    handle_playback_event(&mut m, &PlaybackEvent::Started);
    assert_eq!(m.snapshot().tracks_played_total, 1);
    handle_playback_event(&mut m, &PlaybackEvent::Started);
    assert_eq!(m.snapshot(), MetricsSnapshot { tracks_played_total: 2, ..zero() });
}

#[test]
fn change_to_same_track_counts_nothing() {
    let mut m = fresh();
    for _ in 0..3 {
        handle_playback_event(
            &mut m,
            &PlaybackEvent::Changed { old_track_id: track(7), new_track_id: track(7) },
        );
    }
    assert_eq!(m.snapshot(), zero());
}

#[test]
fn change_to_other_track_counts_once() {
    let mut m = fresh();
    handle_playback_event(
        &mut m,
        &PlaybackEvent::Changed { old_track_id: track(7), new_track_id: track(8) },
    );
    assert_eq!(m.snapshot(), MetricsSnapshot { tracks_played_total: 1, ..zero() });
}

#[test]
fn change_of_audio_kind_alone_counts() {
    let mut m = fresh();
    handle_playback_event(
        &mut m,
        &PlaybackEvent::Changed {
            old_track_id: track(7),
            new_track_id: TrackId { id: 7, kind: AudioKind::Podcast },
        },
    );
    assert_eq!(m.snapshot().tracks_played_total, 1);
}

#[test]
fn pause_stops_and_counts_whatever_was_playing() {
    let mut m = fresh();
    handle_playback_event(&mut m, &PlaybackEvent::Paused);
    assert_eq!(m.snapshot(), MetricsSnapshot { pause_count: 1, ..zero() });
    handle_playback_event(&mut m, &PlaybackEvent::Playing);
    assert_eq!(m.snapshot().is_playing, 1);
    handle_playback_event(&mut m, &PlaybackEvent::Paused);
    assert_eq!(m.snapshot(), MetricsSnapshot { pause_count: 2, ..zero() });
}

#[test]
fn play_then_stop_leaves_not_playing() {
    let mut m = fresh();
    handle_playback_event(&mut m, &PlaybackEvent::Playing);
    handle_playback_event(&mut m, &PlaybackEvent::Stopped);
    assert_eq!(m.snapshot(), zero());
}

#[test]
fn last_volume_wins() {
    let mut m = fresh();
    handle_playback_event(&mut m, &PlaybackEvent::VolumeSet { volume: 30 });
    assert_eq!(m.snapshot().playback_volume, 30);
    handle_playback_event(&mut m, &PlaybackEvent::VolumeSet { volume: 75 });
    assert_eq!(m.snapshot(), MetricsSnapshot { playback_volume: 75, ..zero() });
}

#[test]
fn largest_volume_is_kept_whole() {
    let mut m = fresh();
    handle_playback_event(&mut m, &PlaybackEvent::VolumeSet { volume: u16::MAX });
    assert_eq!(m.snapshot().playback_volume, 65535);
}

#[test]
fn unavailable_raises_its_gauge() {
    let mut m = fresh();
    handle_playback_event(&mut m, &PlaybackEvent::Unavailable);
    handle_playback_event(&mut m, &PlaybackEvent::Unavailable);
    assert_eq!(m.snapshot(), MetricsSnapshot { unavailable_tracks: 2, ..zero() });
}

#[test]
fn other_event_changes_nothing() {
    let mut m = fresh();
    handle_playback_event(&mut m, &PlaybackEvent::Started);
    handle_playback_event(&mut m, &PlaybackEvent::VolumeSet { volume: 10 });
    let before = m.snapshot();
    let text_before = m.encode().expect("encode");
    handle_playback_event(&mut m, &PlaybackEvent::Other);
    assert_eq!(m.snapshot(), before);
    assert_eq!(m.encode().expect("encode"), text_before);
}

#[test]
fn two_scrapes_are_identical() {
    let mut m = fresh();
    handle_playback_event(&mut m, &PlaybackEvent::Paused);
    let first = m.encode().expect("encode");
    let second = m.encode().expect("encode");
    assert_eq!(first, second);
}

#[test]
fn scrape_after_start_play_volume() {
    let mut m = fresh();
    handle_playback_event(&mut m, &PlaybackEvent::Started);
    handle_playback_event(&mut m, &PlaybackEvent::Playing);
    handle_playback_event(&mut m, &PlaybackEvent::VolumeSet { volume: 42 });
    let text = m.encode().expect("encode");
    let lines: Vec<&str> = text.lines().collect();
    assert!(lines.contains(&"tracks_played_total 1"));
    assert!(lines.contains(&"is_playing 1"));
    assert!(lines.contains(&"playback_volume 42"));
}

#[test]
fn exposition_has_help_and_type_for_each_instrument() {
    let text = fresh().encode().expect("encode");
    let expected = "# HELP is_playing Whether or not the player is currently playing\n\
# TYPE is_playing gauge\n\
is_playing 0\n\
# HELP pause_count Number of pause events\n\
# TYPE pause_count counter\n\
pause_count 0\n\
# HELP playback_volume Volume level of the Spotify player\n\
# TYPE playback_volume gauge\n\
playback_volume 0\n\
# HELP tracks_played_total Number of Spotify tracks played\n\
# TYPE tracks_played_total counter\n\
tracks_played_total 0\n\
# HELP unavailable_tracks Number of unavailable tracks that attempted to play\n\
# TYPE unavailable_tracks gauge\n\
unavailable_tracks 0\n";
    assert_eq!(text, expected);
}

#[test]
fn two_registries_are_independent() {
    let mut a = fresh();
    let b = fresh();
    handle_playback_event(&mut a, &PlaybackEvent::Started);
    assert_eq!(a.snapshot().tracks_played_total, 1);
    assert_eq!(b.snapshot(), zero());
    assert_ne!(MetricsError::Registration, MetricsError::Encoding);
}

#[test]
fn exporter_sees_later_events() {
    let mut m = fresh();
    let exporter = m.exporter();
    handle_playback_event(&mut m, &PlaybackEvent::Paused);
    let text = exporter.render().expect("render");
    assert!(text.lines().any(|l| l == "pause_count 1"));
    assert_eq!(text, m.encode().expect("encode"));
}
