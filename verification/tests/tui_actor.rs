use sonictunes::libmpv_handler::{FileLoadedData, LibMpvEventMessage, LibMpvMessage};
use sonictunes::text::{chars_of, string_of};
use sonictunes::tui::{
    default_keybindings, draw, lookup, tui, Key, KeyBinding, KeyCode, Screen, Tui, TuiCommand,
    TuiInput, TuiOutput, TuiState, SHIFT,
};

fn plain(code: KeyCode) -> Key {
    Key { code, modifiers: 0 }
}

fn ch(c: char) -> Key {
    plain(KeyCode::Char(c))
}

fn fresh() -> Tui {
    Tui::new(default_keybindings(), 0)
}

fn quiet() -> TuiOutput {
    TuiOutput { messages: Vec::new(), quit: false }
}

fn sends(message: LibMpvMessage) -> TuiOutput {
    TuiOutput { messages: vec![message], quit: false }
}

fn typed(t: &mut Tui, text: &str) {
    for c in text.chars() {
        assert_eq!(t.on_key(ch(c), 0), quiet());
    }
}

fn entered(line: &str) -> (Tui, TuiOutput) {
    let mut t = fresh();
    t.on_key(ch(':'), 0);
    typed(&mut t, line);
    let out = t.on_key(plain(KeyCode::Enter), 1_000);
    (t, out)
}

fn track(title: &str, artist: Option<&str>) -> LibMpvEventMessage {
    LibMpvEventMessage::TrackLoaded(FileLoadedData {
        media_title: title.to_string(),
        artist: artist.map(String::from),
        album: None,
        duration: 185_900,
        volume: 60,
    })
}

fn lines(t: &Tui) -> Vec<String> {
    t.history.iter().map(string_of).collect()
}

#[test]
fn keys_are_bound_to_commands() {
    let b = default_keybindings();
    assert_eq!(b.len(), 19);
    assert_eq!(lookup(&b, ch('1')), Some(TuiCommand::State(TuiState::Player)));
    assert_eq!(lookup(&b, ch('2')), Some(TuiCommand::State(TuiState::History)));
    assert_eq!(lookup(&b, ch('0')), Some(TuiCommand::State(TuiState::Help)));
    assert_eq!(lookup(&b, ch('q')), Some(TuiCommand::Quit));
    assert_eq!(lookup(&b, ch('{')), Some(TuiCommand::Volume(-1)));
    assert_eq!(lookup(&b, ch('}')), Some(TuiCommand::Volume(1)));
    assert_eq!(lookup(&b, ch('[')), Some(TuiCommand::Volume(-10)));
    assert_eq!(lookup(&b, ch(']')), Some(TuiCommand::Volume(10)));
    assert_eq!(lookup(&b, plain(KeyCode::Left)), Some(TuiCommand::Seek(-10_000)));
    assert_eq!(lookup(&b, plain(KeyCode::Right)), Some(TuiCommand::Seek(10_000)));
    assert_eq!(
        lookup(&b, Key { code: KeyCode::Left, modifiers: SHIFT }),
        Some(TuiCommand::Seek(-60_000))
    );
    assert_eq!(
        lookup(&b, Key { code: KeyCode::Right, modifiers: SHIFT }),
        Some(TuiCommand::Seek(60_000))
    );
    assert_eq!(lookup(&b, ch(' ')), Some(TuiCommand::PlayPause));
    assert_eq!(lookup(&b, ch('z')), Some(TuiCommand::PlayPrevious));
    assert_eq!(lookup(&b, ch('b')), Some(TuiCommand::PlayNext));
    assert_eq!(lookup(&b, ch('j')), Some(TuiCommand::Scroll(1)));
    assert_eq!(lookup(&b, ch('k')), Some(TuiCommand::Scroll(-1)));
    assert_eq!(lookup(&b, ch(':')), Some(TuiCommand::EnterCommandMode(true)));
    assert_eq!(lookup(&b, plain(KeyCode::Esc)), Some(TuiCommand::EnterCommandMode(false)));
    assert_eq!(lookup(&b, ch('x')), None);
    assert_eq!(lookup(&b, Key { code: KeyCode::Char('q'), modifiers: SHIFT }), None);
    assert_eq!(lookup(&b, Key { code: KeyCode::Left, modifiers: 2 }), None);
    assert_eq!(lookup(&b, plain(KeyCode::Enter)), None);
}

#[test]
fn the_first_binding_of_a_key_counts() {
    let b = vec![
        KeyBinding { key: ch('a'), command: TuiCommand::PlayNext, description: None },
        KeyBinding { key: ch('a'), command: TuiCommand::Quit, description: None },
    ];
    assert_eq!(lookup(&b, ch('a')), Some(TuiCommand::PlayNext));
    assert_eq!(lookup(&Vec::new(), ch('a')), None);
}

#[test]
fn keys_send_commands() {
    let mut t = fresh();
    assert_eq!(t.on_key(ch(']'), 0), sends(LibMpvMessage::AdjustVolume(10)));
    assert_eq!(t.on_key(ch('{'), 0), sends(LibMpvMessage::AdjustVolume(-1)));
    assert_eq!(t.on_key(plain(KeyCode::Left), 0), sends(LibMpvMessage::SeekRelative(-10_000)));
    assert_eq!(t.on_key(ch(' '), 0), sends(LibMpvMessage::TogglePause));
    assert_eq!(t.on_key(ch('b'), 0), sends(LibMpvMessage::PlayNext));
    assert_eq!(t.on_key(ch('z'), 0), sends(LibMpvMessage::PlayPrevious));
    assert_eq!(t.on_key(ch('x'), 0), quiet());
    assert_eq!(
        t.on_key(ch('q'), 0),
        TuiOutput { messages: vec![LibMpvMessage::Quit], quit: true }
    );
}

#[test]
fn keys_change_the_view() {
    let mut t = fresh();
    assert_eq!(t.state, TuiState::Player);
    assert_eq!(t.on_key(ch('2'), 0), quiet());
    assert_eq!(t.state, TuiState::History);
    t.on_key(ch('0'), 0);
    assert_eq!(t.state, TuiState::Help);
    t.on_key(ch('1'), 0);
    assert_eq!(t.state, TuiState::Player);
}

#[test]
fn the_command_line_takes_letters_digits_and_signs() {
    let mut t = fresh();
    t.on_key(ch(':'), 0);
    assert!(t.command_mode);
    typed(&mut t, "vol");
    typed(&mut t, " ");
    typed(&mut t, "+1");
    typed(&mut t, ".:/é");
    assert_eq!(string_of(&t.command_text), "vol +1");
    assert_eq!(t.cursor_position, 6);
}

#[test]
fn the_cursor_moves_and_edits_in_place() {
    let mut t = fresh();
    t.on_key(ch(':'), 0);
    typed(&mut t, "sek");
    t.on_key(plain(KeyCode::Left), 0);
    assert_eq!(t.cursor_position, 2);
    typed(&mut t, "e");
    assert_eq!(string_of(&t.command_text), "seek");
    assert_eq!(t.cursor_position, 3);
    typed(&mut t, " ");
    assert_eq!(string_of(&t.command_text), "seek");
    t.on_key(plain(KeyCode::Backspace), 0);
    assert_eq!(string_of(&t.command_text), "sek");
    assert_eq!(t.cursor_position, 2);
    t.on_key(plain(KeyCode::Right), 0);
    t.on_key(plain(KeyCode::Right), 0);
    assert_eq!(t.cursor_position, 3);
    for _ in 0..5 {
        t.on_key(plain(KeyCode::Left), 0);
    }
    assert_eq!(t.cursor_position, 0);
    t.on_key(plain(KeyCode::Backspace), 0);
    assert_eq!(string_of(&t.command_text), "sek");
    t.on_key(plain(KeyCode::Up), 0);
    assert_eq!(string_of(&t.command_text), "sek");
    assert!(t.command_mode);
}

#[test]
fn escape_closes_the_command_line() {
    let mut t = fresh();
    t.on_key(ch(':'), 0);
    typed(&mut t, "quit");
    assert_eq!(t.on_key(plain(KeyCode::Esc), 0), quiet());
    assert!(!t.command_mode);
    assert_eq!(t.command_text, Vec::<char>::new());
    assert_eq!(t.cursor_position, 0);
    assert!(!t.command_error);
}

#[test]
fn enter_carries_the_line_out() {
    let (t, out) = entered("vol +5");
    assert_eq!(out, sends(LibMpvMessage::AdjustVolume(5)));
    assert!(!t.command_mode);
    assert!(!t.command_error);
    assert_eq!(t.command_text, Vec::<char>::new());
    assert_eq!(entered("vol 300").1, sends(LibMpvMessage::SetVolume(200)));
    assert_eq!(entered("seek -30").1, sends(LibMpvMessage::SeekRelative(-30_000)));
    assert_eq!(entered("play-pause").1, sends(LibMpvMessage::TogglePause));
    assert_eq!(
        entered("q").1,
        TuiOutput { messages: vec![LibMpvMessage::Quit], quit: true }
    );
}

#[test]
fn a_line_that_is_no_command_shows_an_error_until_the_next_key() {
    let (mut t, out) = entered("vol 10 20");
    assert_eq!(out, quiet());
    assert!(t.command_error);
    assert_eq!(t.frame(0).error.as_deref(), Some("Error: unknown command"));
    t.on_key(ch('x'), 0);
    assert!(!t.command_error);
    assert_eq!(t.frame(0).error, None);
    assert!(entered("seek abc").0.command_error);
    assert!(entered("vol").0.command_error);
    assert!(!entered("").0.command_error);
    assert!(!entered("   ").0.command_error);
}

#[test]
fn deferred_commands_fire_once_and_replace_each_other() {
    let (mut t, out) = entered("pause-after 2");
    assert_eq!(out, quiet());
    assert_eq!(t.pause_after, Some(1_000 + 120_000));
    assert_eq!(t.quit_after, None);
    assert_eq!(t.on_tick(120_999), quiet());
    assert_eq!(t.on_tick(121_000), sends(LibMpvMessage::Pause));
    assert_eq!(t.pause_after, None);
    assert_eq!(t.on_tick(500_000), quiet());

    let (mut t, _) = entered("pause-after 2");
    t.execute(TuiCommand::QuitAfter(1), 5_000);
    assert_eq!(t.pause_after, None);
    assert_eq!(t.quit_after, Some(65_000));
    assert_eq!(t.on_tick(64_999), quiet());
    assert_eq!(
        t.on_tick(70_000),
        TuiOutput { messages: vec![LibMpvMessage::Quit], quit: true }
    );
    t.execute(TuiCommand::PauseAfter(0), 9);
    assert_eq!((t.pause_after, t.quit_after), (Some(9), None));
    t.execute(TuiCommand::PauseAfter(u64::MAX), 9);
    assert_eq!(t.pause_after, Some(u64::MAX));
}

#[test]
fn both_deferred_commands_due_are_both_sent() {
    let mut t = fresh();
    t.pause_after = Some(10);
    t.quit_after = Some(20);
    assert_eq!(
        t.on_tick(20),
        TuiOutput { messages: vec![LibMpvMessage::Pause, LibMpvMessage::Quit], quit: true }
    );
}

#[test]
fn loaded_tracks_go_to_the_history_once() {
    let mut t = fresh();
    assert!(!t.on_event(track("One", Some("A")), 0));
    assert_eq!(lines(&t), vec!["0: One by A"]);
    assert!(!t.on_event(track("One", Some("A")), 0));
    assert_eq!(lines(&t), vec!["0: One by A"]);
    t.on_event(LibMpvEventMessage::PlaylistPositionChanged(1), 0);
    assert_eq!(t.current, 1);
    t.on_event(track("Two", None), 0);
    assert_eq!(lines(&t), vec!["0: One by A", "1: Two"]);
    t.on_event(LibMpvEventMessage::PlaylistPositionChanged(0), 0);
    t.on_event(track("One", Some("A")), 0);
    assert_eq!(lines(&t).len(), 2);
    t.on_event(LibMpvEventMessage::PlaylistPositionChanged(-7), 0);
    t.on_event(track("Three", None), 0);
    assert_eq!(lines(&t)[2], "2: Three");
}

#[test]
fn the_event_that_ends_the_session_stops_the_actor() {
    let mut t = fresh();
    assert!(t.on_event(LibMpvEventMessage::Quit, 0));
    assert_eq!(
        tui(&mut t, TuiInput::Event(LibMpvEventMessage::Quit), 0),
        TuiOutput { messages: Vec::new(), quit: true }
    );
    assert_eq!(tui(&mut t, TuiInput::Event(LibMpvEventMessage::TrackStarting), 0), quiet());
    assert_eq!(tui(&mut t, TuiInput::Tick, 0), quiet());
    assert_eq!(tui(&mut t, TuiInput::Key(ch(']')), 0), sends(LibMpvMessage::AdjustVolume(10)));
}

#[test]
fn scrolling_stays_within_the_history() {
    let mut t = fresh();
    t.on_key(ch('j'), 0);
    assert_eq!(t.scroll, 0);
    for (i, title) in ["a", "b", "c"].iter().enumerate() {
        t.on_event(LibMpvEventMessage::PlaylistPositionChanged(i as i64), 0);
        t.on_event(track(title, None), 0);
    }
    t.on_key(ch('j'), 0);
    t.on_key(ch('j'), 0);
    assert_eq!(t.scroll, 2);
    t.on_key(ch('j'), 0);
    assert_eq!(t.scroll, 2);
    t.on_key(ch('k'), 0);
    assert_eq!(t.scroll, 1);
    t.on_key(ch('k'), 0);
    t.on_key(ch('k'), 0);
    assert_eq!(t.scroll, 0);
    t.execute(TuiCommand::Scroll(0), 0);
    assert_eq!(t.scroll, 0);
}

#[test]
fn the_player_shows_the_track_and_the_clock() {
    let mut t = fresh();
    assert_eq!(t.frame(0).text, "\n| 00:00:00 / 00:00:00 vol: 0");
    t.on_event(track("Song", Some("Band")), 1_000);
    t.on_event(LibMpvEventMessage::TransportState(false), 1_000);
    assert_eq!(t.frame(1_000).text, "Song by Band\n> 00:00:00 / 00:03:05 vol: 60");
    assert_eq!(t.frame(62_999).text, "Song by Band\n> 00:01:01 / 00:03:05 vol: 60");
    t.on_event(LibMpvEventMessage::TransportState(true), 63_000);
    t.on_event(LibMpvEventMessage::VolumeChanged(-5), 63_000);
    assert_eq!(t.frame(900_000).text, "Song by Band\n| 00:01:02 / 00:03:05 vol: -5");
    t.on_event(track("Solo", None), 1_000);
    assert_eq!(t.frame(1_000).text, "Solo\n| 00:00:00 / 00:03:05 vol: 60");
    assert_eq!(t.frame(0).scroll, 0);
}

#[test]
fn the_history_marks_the_current_track() {
    let mut t = fresh();
    t.on_key(ch('2'), 0);
    assert_eq!(t.frame(0).text, "");
    t.on_event(track("One", Some("A")), 0);
    t.on_event(LibMpvEventMessage::PlaylistPositionChanged(1), 0);
    t.on_event(track("Two", None), 0);
    assert_eq!(t.frame(0).text, "0: One by A\n* 1: Two\n");
    t.on_event(LibMpvEventMessage::PlaylistPositionChanged(0), 0);
    assert_eq!(t.frame(0).text, "* 0: One by A\n1: Two\n");
    t.on_event(LibMpvEventMessage::PlaylistPositionChanged(5), 0);
    assert_eq!(t.frame(0).text, "0: One by A\n1: Two\n");
    t.on_key(ch('j'), 0);
    assert_eq!(t.frame(0).scroll, 1);
}

#[test]
fn the_screen_holds_the_command_line_behind_a_colon() {
    let mut t = fresh();
    assert_eq!(t.frame(0).command, None);
    assert_eq!(t.frame(0).cursor, None);
    t.on_key(ch(':'), 0);
    typed(&mut t, "vol");
    t.on_key(plain(KeyCode::Left), 0);
    let screen = t.frame(0);
    assert_eq!(screen.command.as_deref(), Some(":vol"));
    assert_eq!(screen.cursor, Some(3));
    assert_eq!(screen.error, None);
}

#[test]
fn the_screen_counts_as_far_as_it_can() {
    let mut t = fresh();
    t.on_key(ch('2'), 0);
    t.scroll = 70_000;
    assert_eq!(t.frame(0).scroll, u16::MAX);
    t.scroll = 65_534;
    assert_eq!(t.frame(0).scroll, 65_534);
    t.command_mode = true;
    t.command_text = vec!['a'; 70_000];
    t.cursor_position = 65_534;
    assert_eq!(t.frame(0).cursor, Some(65_535));
    t.cursor_position = 70_000;
    assert_eq!(t.frame(0).cursor, Some(65_535));
}

#[test]
fn the_layout_of_the_screen() {
    assert_eq!(
        draw("text", 3, Some("seek 5"), Some("oops"), 6),
        Screen {
            text: "text".to_string(),
            scroll: 3,
            error: Some("oops".to_string()),
            command: Some(":seek 5".to_string()),
            cursor: Some(7),
        }
    );
    assert_eq!(
        draw("", 0, None, None, 4),
        Screen { text: String::new(), scroll: 0, error: None, command: None, cursor: None }
    );
    assert_eq!(draw("", 0, Some(""), None, u16::MAX).cursor, Some(u16::MAX));
    assert_eq!(chars_of(&draw("", 0, Some(""), None, 0).command.unwrap()), vec![':']);
}
