use sonictunes::libmpv_handler::{
    adjusted_volume, track_loaded, EngineAction, EngineFault, EngineInput, EngineReply,
    EngineRequest, EngineSignal, FileLoadedData, LibMpvEventMessage, LibMpvHandler, LibMpvMessage,
    ObservedProperty, Pending, TrackReads, ADVANCE_UNAVAILABLE, END_OF_FILE,
};
use sonictunes::{audiofile_to_url, next_address, AudioFile, SonicTunesError};

fn handler() -> LibMpvHandler {
    LibMpvHandler::initialize_libmpv(50).0
}

fn loaded() -> LibMpvHandler {
    let mut h = handler();
    h.run(EngineInput::Signal(EngineSignal::FileLoaded));
    h.run(EngineInput::Reply(EngineReply::Track(reads())));
    h
}

fn reads() -> TrackReads {
    TrackReads {
        title: Ok("Song".to_string()),
        media_title: Ok("song.mp3".to_string()),
        artist: Ok("Band".to_string()),
        album: Err(EngineFault::Raw(-10)),
        duration: Ok(180_500),
        volume: Ok(50),
    }
}

fn publish(event: LibMpvEventMessage) -> Vec<EngineAction> {
    vec![EngineAction::Publish(event)]
}

fn ask(request: EngineRequest) -> Vec<EngineAction> {
    vec![EngineAction::Ask(request)]
}

fn catalog() -> Vec<AudioFile> {
    ["1", "2", "3"]
        .iter()
        .map(|id| AudioFile {
            id: id.to_string(),
            path: format!("/music/{id}.flac"),
            mime: "audio/flac".to_string(),
        })
        .collect()
}

#[test]
fn the_loop_starts_guarded_and_idle() {
    let (h, requests) = LibMpvHandler::initialize_libmpv(35);
    assert!(h.playlist.ignore_next_until_loaded);
    assert_eq!(h.playlist.playing_position, -1);
    assert_eq!(h.pending, Pending::Idle);
    assert_eq!(requests, vec![EngineRequest::SetVolume(35), EngineRequest::DisableVideo]);
    assert_eq!(
        h.create_client(),
        vec![
            ObservedProperty::Pause,
            ObservedProperty::Volume,
            ObservedProperty::Duration,
            ObservedProperty::PlaylistPosition,
        ]
    );
    assert_eq!(
        h.load_file("http://host/file/1".to_string()),
        EngineRequest::LoadFile("http://host/file/1".to_string())
    );
}

#[test]
fn signals_become_events() {
    let mut h = handler();
    assert_eq!(
        h.run(EngineInput::Signal(EngineSignal::StartFile)),
        publish(LibMpvEventMessage::TrackStarting)
    );
    assert_eq!(
        h.run(EngineInput::Signal(EngineSignal::PauseChanged(true))),
        publish(LibMpvEventMessage::TransportState(true))
    );
    assert_eq!(
        h.run(EngineInput::Signal(EngineSignal::VolumeChanged(80))),
        publish(LibMpvEventMessage::VolumeChanged(80))
    );
    assert_eq!(
        h.run(EngineInput::Signal(EngineSignal::DurationChanged(61_250))),
        publish(LibMpvEventMessage::DurationChanged(61_250))
    );
    assert_eq!(
        h.run(EngineInput::Signal(EngineSignal::PlaylistPositionChanged(2))),
        publish(LibMpvEventMessage::PlaylistPositionChanged(2))
    );
    assert_eq!(h.playlist.playing_position, 2);
    assert_eq!(
        h.run(EngineInput::Signal(EngineSignal::PlaylistPositionChanged(-1))),
        publish(LibMpvEventMessage::PlaylistPositionChanged(-1))
    );
    assert_eq!(h.run(EngineInput::Signal(EngineSignal::Other)), vec![]);
    assert_eq!(h.run(EngineInput::Signal(EngineSignal::EndFile(2))), vec![]);
    assert_eq!(h, handler());
}

#[test]
fn a_restart_reads_the_pause_flag() {
    let mut h = handler();
    assert_eq!(
        h.run(EngineInput::Signal(EngineSignal::PlaybackRestart)),
        ask(EngineRequest::ReadPause)
    );
    assert_eq!(h.pending, Pending::RestartPause);
    assert_eq!(
        h.run(EngineInput::Reply(EngineReply::Flag(false))),
        publish(LibMpvEventMessage::TransportState(false))
    );
    assert_eq!(h.pending, Pending::Idle);
}

#[test]
fn a_seek_reads_the_position() {
    let mut h = handler();
    assert_eq!(
        h.run(EngineInput::Signal(EngineSignal::Seek)),
        ask(EngineRequest::ReadTimePosition)
    );
    assert_eq!(
        h.run(EngineInput::Reply(EngineReply::Millis(42_000))),
        publish(LibMpvEventMessage::PositionChanged(42_000))
    );
    assert_eq!(h.pending, Pending::Idle);
}

#[test]
fn a_loaded_file_is_published_with_what_was_read() {
    let mut h = handler();
    assert_eq!(
        h.run(EngineInput::Signal(EngineSignal::FileLoaded)),
        ask(EngineRequest::ReadTrack)
    );
    assert!(h.playlist.ignore_next_until_loaded);
    assert_eq!(
        h.run(EngineInput::Reply(EngineReply::Track(reads()))),
        publish(LibMpvEventMessage::TrackLoaded(FileLoadedData {
            media_title: "Song".to_string(),
            artist: Some("Band".to_string()),
            album: None,
            duration: 180_500,
            volume: 50,
        }))
    );
    assert!(!h.playlist.ignore_next_until_loaded);
    assert_eq!(h.pending, Pending::Idle);
}

#[test]
fn a_track_without_a_title_goes_by_its_media_title() {
    let data = track_loaded(TrackReads {
        title: Err(EngineFault::Raw(-10)),
        artist: Err(EngineFault::Raw(-10)),
        duration: Err(EngineFault::Raw(-10)),
        ..reads()
    });
    assert_eq!(
        data,
        Ok(FileLoadedData {
            media_title: "song.mp3".to_string(),
            artist: None,
            album: None,
            duration: 0,
            volume: 50,
        })
    );
}

#[test]
fn a_track_without_any_title_or_without_volume_is_a_fault() {
    assert_eq!(
        track_loaded(TrackReads {
            title: Err(EngineFault::Raw(-10)),
            media_title: Err(EngineFault::Raw(-8)),
            volume: Err(EngineFault::Raw(-9)),
            ..reads()
        }),
        Err(EngineFault::Raw(-8))
    );
    assert_eq!(
        track_loaded(TrackReads { volume: Err(EngineFault::InvalidUtf8), ..reads() }),
        Err(EngineFault::InvalidUtf8)
    );
    let mut h = handler();
    h.run(EngineInput::Signal(EngineSignal::FileLoaded));
    assert_eq!(
        h.run(EngineInput::Reply(EngineReply::Track(TrackReads {
            volume: Err(EngineFault::Null),
            ..reads()
        }))),
        vec![
            EngineAction::Publish(LibMpvEventMessage::Quit),
            EngineAction::Stop(Err(SonicTunesError::EngineFault(EngineFault::Null))),
        ]
    );
    assert!(h.playlist.ignore_next_until_loaded);
    assert_eq!(h.pending, Pending::Stopped);
}

#[test]
fn volume_changes_stay_within_limits() {
    assert_eq!(adjusted_volume(50, 10), 60);
    assert_eq!(adjusted_volume(195, 10), 200);
    assert_eq!(adjusted_volume(5, -10), 0);
    assert_eq!(adjusted_volume(i64::MAX, i64::MAX), 200);
    assert_eq!(adjusted_volume(i64::MIN, i64::MIN), 0);
    assert_eq!(adjusted_volume(-300, 400), 100);
    let mut h = handler();
    assert_eq!(
        h.run(EngineInput::Command(LibMpvMessage::AdjustVolume(30))),
        ask(EngineRequest::ReadVolume)
    );
    assert_eq!(
        h.run(EngineInput::Reply(EngineReply::Number(180))),
        ask(EngineRequest::SetVolume(200))
    );
    assert_eq!(h.run(EngineInput::Reply(EngineReply::Done)), vec![]);
    assert_eq!(h.pending, Pending::Idle);
}

#[test]
fn a_set_volume_is_written_as_it_is() {
    let mut h = handler();
    assert_eq!(
        h.run(EngineInput::Command(LibMpvMessage::SetVolume(250))),
        ask(EngineRequest::SetVolume(250))
    );
    assert_eq!(h.pending, Pending::Effect);
}

#[test]
fn transport_commands_go_to_the_engine() {
    let cases = [
        (LibMpvMessage::SeekRelative(-10_000), EngineRequest::SeekRelative(-10_000)),
        (LibMpvMessage::SeekAbsolute(90_000), EngineRequest::SeekAbsolute(90_000)),
        (LibMpvMessage::Resume, EngineRequest::SetPause(false)),
        (LibMpvMessage::Pause, EngineRequest::SetPause(true)),
        (LibMpvMessage::TogglePause, EngineRequest::TogglePause),
    ];
    for (command, request) in cases {
        let mut h = handler();
        assert_eq!(h.run(EngineInput::Command(command)), ask(request));
        assert_eq!(h.run(EngineInput::Reply(EngineReply::Done)), vec![]);
        assert_eq!(h, handler());
    }
}

#[test]
fn play_next_is_passed_over_until_a_track_is_loaded() {
    let mut h = handler();
    assert_eq!(h.run(EngineInput::Command(LibMpvMessage::PlayNext)), vec![]);
    assert_eq!(h, handler());
    let mut h = loaded();
    assert_eq!(
        h.run(EngineInput::Command(LibMpvMessage::PlayNext)),
        ask(EngineRequest::PlaylistNext { force: false })
    );
    assert_eq!(h.run(EngineInput::Reply(EngineReply::Done)), vec![]);
    assert_eq!(h.pending, Pending::Idle);
    assert_eq!(
        h.run(EngineInput::Command(LibMpvMessage::PlayNext)),
        ask(EngineRequest::PlaylistNext { force: false })
    );
}

#[test]
fn play_next_at_the_last_entry_fetches_appends_and_forces() {
    let mut h = loaded();
    h.run(EngineInput::Command(LibMpvMessage::PlayNext));
    assert_eq!(
        h.run(EngineInput::Reply(EngineReply::Failed(EngineFault::Raw(ADVANCE_UNAVAILABLE)))),
        ask(EngineRequest::ReadPlaylistPosition)
    );
    assert_eq!(
        h.run(EngineInput::Reply(EngineReply::Number(4))),
        ask(EngineRequest::ReadPlaylistCount)
    );
    assert_eq!(h.run(EngineInput::Reply(EngineReply::Number(5))), vec![EngineAction::FetchTrack]);
    assert_eq!(
        h.run(EngineInput::Continuation(Some("http://host/file/2".to_string()))),
        ask(EngineRequest::LoadFile("http://host/file/2".to_string()))
    );
    assert_eq!(
        h.run(EngineInput::Reply(EngineReply::Done)),
        ask(EngineRequest::PlaylistNext { force: true })
    );
    assert_eq!(h.run(EngineInput::Reply(EngineReply::Done)), vec![]);
    assert_eq!(h.pending, Pending::Idle);
    assert!(!h.playlist.ignore_next_until_loaded);
    assert_eq!(h.playlist.playing_position, 4);
}

#[test]
fn play_next_before_the_last_entry_forces_without_fetching() {
    let mut h = loaded();
    h.run(EngineInput::Command(LibMpvMessage::PlayNext));
    h.run(EngineInput::Reply(EngineReply::Failed(EngineFault::Raw(ADVANCE_UNAVAILABLE))));
    h.run(EngineInput::Reply(EngineReply::Number(1)));
    assert_eq!(
        h.run(EngineInput::Reply(EngineReply::Number(5))),
        ask(EngineRequest::PlaylistNext { force: true })
    );
}

#[test]
fn play_next_without_a_playlist_position_does_nothing_more() {
    let mut h = loaded();
    h.run(EngineInput::Command(LibMpvMessage::PlayNext));
    h.run(EngineInput::Reply(EngineReply::Failed(EngineFault::Raw(ADVANCE_UNAVAILABLE))));
    assert_eq!(h.run(EngineInput::Reply(EngineReply::Number(-1))), vec![]);
    assert_eq!(h.pending, Pending::Idle);
}

#[test]
fn play_next_that_fails_otherwise_ends_the_loop() {
    let mut h = loaded();
    h.run(EngineInput::Command(LibMpvMessage::PlayNext));
    assert_eq!(
        h.run(EngineInput::Reply(EngineReply::Failed(EngineFault::Raw(-4)))),
        vec![
            EngineAction::Publish(LibMpvEventMessage::Quit),
            EngineAction::Stop(Err(SonicTunesError::EngineFault(EngineFault::Raw(-4)))),
        ]
    );
    assert_eq!(h.pending, Pending::Stopped);
    assert_eq!(h.run(EngineInput::Command(LibMpvMessage::Quit)), vec![]);
    assert_eq!(h.run(EngineInput::Reply(EngineReply::Done)), vec![]);
    assert_eq!(h.run(EngineInput::ChannelClosed), vec![]);
}

#[test]
fn play_previous_without_an_entry_before_starts_the_track_again() {
    let mut h = handler();
    assert_eq!(
        h.run(EngineInput::Command(LibMpvMessage::PlayPrevious)),
        ask(EngineRequest::PlaylistPrevious)
    );
    assert_eq!(
        h.run(EngineInput::Reply(EngineReply::Failed(EngineFault::Raw(ADVANCE_UNAVAILABLE)))),
        ask(EngineRequest::SeekAbsolute(0))
    );
    assert_eq!(h.run(EngineInput::Reply(EngineReply::Done)), vec![]);
    assert_eq!(h.pending, Pending::Idle);
    h.run(EngineInput::Command(LibMpvMessage::PlayPrevious));
    assert_eq!(h.run(EngineInput::Reply(EngineReply::Done)), vec![]);
    assert_eq!(h.pending, Pending::Idle);
    h.run(EngineInput::Command(LibMpvMessage::PlayPrevious));
    assert_eq!(
        h.run(EngineInput::Reply(EngineReply::Failed(EngineFault::Raw(-10)))),
        vec![
            EngineAction::Publish(LibMpvEventMessage::Quit),
            EngineAction::Stop(Err(SonicTunesError::EngineFault(EngineFault::Raw(-10)))),
        ]
    );
}

#[test]
fn quit_tells_every_subscriber_then_the_engine() {
    let mut h = loaded();
    assert_eq!(
        h.run(EngineInput::Command(LibMpvMessage::Quit)),
        vec![
            EngineAction::Publish(LibMpvEventMessage::Quit),
            EngineAction::Ask(EngineRequest::Quit),
        ]
    );
    assert_eq!(h.pending, Pending::Quitting);
    assert_eq!(h.run(EngineInput::Signal(EngineSignal::StartFile)), vec![]);
    assert_eq!(h.run(EngineInput::ChannelClosed), vec![]);
    assert_eq!(h.run(EngineInput::Reply(EngineReply::Done)), vec![EngineAction::Stop(Ok(()))]);
    assert_eq!(h.pending, Pending::Stopped);
}

#[test]
fn a_failing_quit_is_handed_up() {
    let mut h = handler();
    h.run(EngineInput::Command(LibMpvMessage::Quit));
    assert_eq!(
        h.run(EngineInput::Reply(EngineReply::Failed(EngineFault::VersionMismatch))),
        vec![EngineAction::Stop(Err(SonicTunesError::EngineFault(EngineFault::VersionMismatch)))]
    );
}

#[test]
fn a_closed_channel_counts_as_quit() {
    let mut h = handler();
    h.run(EngineInput::Signal(EngineSignal::Seek));
    assert_eq!(
        h.run(EngineInput::ChannelClosed),
        vec![
            EngineAction::Publish(LibMpvEventMessage::Quit),
            EngineAction::Ask(EngineRequest::Quit),
        ]
    );
    assert_eq!(h.pending, Pending::Quitting);
}

#[test]
fn an_answer_of_the_wrong_kind_ends_the_loop() {
    let mut h = handler();
    h.run(EngineInput::Signal(EngineSignal::Seek));
    assert_eq!(
        h.run(EngineInput::Reply(EngineReply::Flag(true))),
        vec![
            EngineAction::Publish(LibMpvEventMessage::Quit),
            EngineAction::Stop(Err(SonicTunesError::EngineFault(EngineFault::Unexpected))),
        ]
    );
}

#[test]
fn what_is_not_awaited_is_passed_over() {
    let mut h = handler();
    assert_eq!(h.run(EngineInput::Reply(EngineReply::Done)), vec![]);
    assert_eq!(h.run(EngineInput::Continuation(Some("x".to_string()))), vec![]);
    assert_eq!(h, handler());
    h.run(EngineInput::Signal(EngineSignal::Seek));
    assert_eq!(h.run(EngineInput::Signal(EngineSignal::StartFile)), vec![]);
    assert_eq!(h.run(EngineInput::Command(LibMpvMessage::Pause)), vec![]);
    assert_eq!(h.pending, Pending::SeekPosition);
}

#[test]
fn the_end_of_a_file_appends_one_track_once() {
    let mut h = loaded();
    assert_eq!(
        h.run(EngineInput::Signal(EngineSignal::EndFile(END_OF_FILE))),
        vec![EngineAction::FetchTrack]
    );
    assert_eq!(h.run(EngineInput::Reply(EngineReply::Done)), vec![]);
    assert_eq!(
        h.run(EngineInput::Continuation(Some("http://host/file/7".to_string()))),
        ask(EngineRequest::LoadFile("http://host/file/7".to_string()))
    );
    assert_eq!(h.run(EngineInput::Continuation(Some("http://host/file/8".to_string()))), vec![]);
    assert_eq!(h.run(EngineInput::Reply(EngineReply::Done)), vec![]);
    assert_eq!(h.run(EngineInput::Continuation(Some("http://host/file/9".to_string()))), vec![]);
    assert_eq!(h, loaded());
}

#[test]
fn an_unavailable_catalog_ends_the_loop() {
    let mut h = loaded();
    h.run(EngineInput::Signal(EngineSignal::EndFile(END_OF_FILE)));
    assert_eq!(
        h.run(EngineInput::Continuation(next_address("http://host", Some(Vec::new())))),
        vec![
            EngineAction::Publish(LibMpvEventMessage::Quit),
            EngineAction::Stop(Err(SonicTunesError::CatalogUnavailable)),
        ]
    );
    let mut h = loaded();
    h.run(EngineInput::Signal(EngineSignal::EndFile(END_OF_FILE)));
    assert_eq!(
        h.run(EngineInput::Continuation(next_address("http://host", None))),
        vec![
            EngineAction::Publish(LibMpvEventMessage::Quit),
            EngineAction::Stop(Err(SonicTunesError::CatalogUnavailable)),
        ]
    );
}

#[test]
fn end_of_file_at_the_last_entry_appends_a_track_of_the_catalog() {
    let base = "http://host:8080/";
    let addresses: Vec<String> = catalog().iter().map(|f| audiofile_to_url(base, f)).collect();
    assert_eq!(
        addresses,
        vec![
            "http://host:8080/file/1".to_string(),
            "http://host:8080/file/2".to_string(),
            "http://host:8080/file/3".to_string(),
        ]
    );
    let mut seen = [false; 3];
    for _ in 0..400 {
        let mut h = handler();
        assert_eq!(
            h.run(EngineInput::Signal(EngineSignal::EndFile(END_OF_FILE))),
            vec![EngineAction::FetchTrack]
        );
        let address = next_address(base, Some(catalog())).unwrap();
        let which = addresses.iter().position(|a| *a == address).unwrap();
        seen[which] = true;
        assert_eq!(
            h.run(EngineInput::Continuation(Some(address.clone()))),
            ask(EngineRequest::LoadFile(address))
        );
        assert!(h.playlist.ignore_next_until_loaded);
        assert_eq!(h.run(EngineInput::Reply(EngineReply::Done)), vec![]);
        assert!(h.playlist.ignore_next_until_loaded);
        assert_eq!(h.run(EngineInput::Command(LibMpvMessage::PlayNext)), vec![]);
        h.run(EngineInput::Signal(EngineSignal::FileLoaded));
        assert!(h.playlist.ignore_next_until_loaded);
        h.run(EngineInput::Reply(EngineReply::Track(reads())));
        assert!(!h.playlist.ignore_next_until_loaded);
    }
    assert_eq!(seen, [true; 3]);
}
