use sonictunes::libmpv_handler::{FileLoadedData, LibMpvEventMessage};
use sonictunes::projection::PlaybackProjection;

fn track(duration: i64) -> FileLoadedData {
    FileLoadedData {
        media_title: "Song".to_string(),
        artist: Some("Band".to_string()),
        album: None,
        duration,
        volume: 70,
    }
}

#[test]
fn a_new_projection_shows_nothing() {
    let p = PlaybackProjection::new(5_000);
    assert_eq!(p.position(5_000), 0);
    assert_eq!(p.position(99_000), 0);
    assert!(p.paused);
    assert!(!p.ready);
    assert_eq!(p.title, "");
}

#[test]
fn the_position_runs_while_playing_and_stands_while_paused() {
    let mut p = PlaybackProjection::new(0);
    p.apply(LibMpvEventMessage::TrackLoaded(track(300_000)), 1_000);
    p.apply(LibMpvEventMessage::TransportState(false), 1_500);
    assert_eq!(p.position(1_500), 0);
    assert_eq!(p.position(13_500), 12_000);
    p.apply(LibMpvEventMessage::TransportState(true), 13_500);
    assert_eq!(p.position(13_500), 12_000);
    assert_eq!(p.position(1_000_000), 12_000);
    p.apply(LibMpvEventMessage::TransportState(false), 20_000);
    assert_eq!(p.position(21_000), 13_000);
}

#[test]
fn a_loaded_track_starts_from_zero_whatever_came_before() {
    let mut p = PlaybackProjection::new(0);
    p.apply(LibMpvEventMessage::TrackLoaded(track(300_000)), 0);
    p.apply(LibMpvEventMessage::TransportState(false), 0);
    assert_eq!(p.position(50_000), 50_000);
    p.apply(LibMpvEventMessage::TrackLoaded(track(200_000)), 60_000);
    p.apply(LibMpvEventMessage::TransportState(false), 61_000);
    assert_eq!(p.position(61_000 + 7_000), 7_000);
    assert_eq!(p.title, "Song");
    assert_eq!(p.artist.as_deref(), Some("Band"));
    assert_eq!(p.duration, 200_000);
    assert_eq!(p.volume, 70);
}

#[test]
fn the_position_stays_within_the_duration() {
    let mut p = PlaybackProjection::new(0);
    p.apply(LibMpvEventMessage::TrackLoaded(track(10_000)), 0);
    p.apply(LibMpvEventMessage::TransportState(false), 0);
    assert_eq!(p.position(10_000), 10_000);
    assert_eq!(p.position(25_000), 10_000);
    p.apply(LibMpvEventMessage::DurationChanged(30_000), 25_000);
    assert_eq!(p.position(25_000), 25_000);
    p.apply(LibMpvEventMessage::DurationChanged(-1), 25_000);
    assert_eq!(p.position(25_000), 0);
    p.apply(LibMpvEventMessage::PositionChanged(-5_000), 26_000);
    p.apply(LibMpvEventMessage::DurationChanged(30_000), 26_000);
    assert_eq!(p.position(27_000), 0);
    assert_eq!(p.position(32_000), 1_000);
}

#[test]
fn a_seek_sets_the_anchor() {
    let mut p = PlaybackProjection::new(0);
    p.apply(LibMpvEventMessage::TrackLoaded(track(300_000)), 0);
    p.apply(LibMpvEventMessage::TransportState(false), 0);
    p.apply(LibMpvEventMessage::PositionChanged(120_000), 4_000);
    assert_eq!(p.anchor_wallclock, 4_000);
    assert_eq!(p.anchor_position, 120_000);
    assert_eq!(p.position(5_000), 121_000);
}

#[test]
fn a_starting_track_is_not_ready() {
    let mut p = PlaybackProjection::new(0);
    p.apply(LibMpvEventMessage::TrackLoaded(track(300_000)), 0);
    p.apply(LibMpvEventMessage::TransportState(false), 0);
    p.apply(LibMpvEventMessage::TrackStarting, 9_000);
    assert!(!p.ready);
    assert_eq!(p.position(10_000), 0);
    p.apply(LibMpvEventMessage::TransportState(false), 11_000);
    assert!(p.ready);
}

#[test]
fn a_clock_that_reads_earlier_than_the_anchor_counts_as_no_time() {
    let mut p = PlaybackProjection::new(0);
    p.apply(LibMpvEventMessage::TrackLoaded(track(300_000)), 0);
    p.apply(LibMpvEventMessage::PositionChanged(2_000), 10_000);
    p.apply(LibMpvEventMessage::TransportState(false), 10_000);
    assert_eq!(p.position(9_000), 2_000);
}

#[test]
fn the_anchor_does_not_leave_the_machine() {
    let mut p = PlaybackProjection::new(0);
    p.apply(LibMpvEventMessage::TrackLoaded(track(i64::MAX)), 0);
    p.apply(LibMpvEventMessage::PositionChanged(i64::MAX - 10), 0);
    p.apply(LibMpvEventMessage::TransportState(false), 0);
    assert_eq!(p.position(1_000), i64::MAX);
    p.apply(LibMpvEventMessage::TransportState(true), u64::MAX);
    assert_eq!(p.anchor_position, i64::MAX);
    assert_eq!(p.volume, 70);
    p.apply(LibMpvEventMessage::VolumeChanged(35), 0);
    assert_eq!(p.volume, 35);
    p.apply(LibMpvEventMessage::PlaylistPositionChanged(3), 0);
    p.apply(LibMpvEventMessage::Quit, 0);
    assert_eq!(p.volume, 35);
}
