//! The terminal actor: its command grammar, its key bindings, and what it does
//! with a key, an event or the passing of time.

use crate::help::{help_text, key_names_of, spec_help, KeyNames};
use crate::libmpv_handler::{LibMpvEventMessage, LibMpvMessage};
use crate::projection::PlaybackProjection;
use crate::text::{
    chars_of, decimal, is_word, parse_i64, parse_millis, parse_u64, push_all, push_decimal,
    push_signed, push_str, push_two_digits, signed_text, spec_parse_i64, spec_parse_millis,
    spec_parse_u64, split_words, string_of, texts, tokens, two_digits,
};
use vstd::prelude::*;

verus! {

/// The views of the terminal.
#[derive(Debug, Clone, Copy, PartialEq, Eq, Structural)]
pub enum TuiState {
    Player,
    History,
    Help,
}

/// What a key or a line of text asks of the terminal actor. Volumes are in
/// percent, seek offsets in milliseconds, delays in minutes.
#[derive(Debug, Clone, Copy, PartialEq, Eq, Structural)]
pub enum TuiCommand {
    State(TuiState),
    Quit,
    Volume(i64),
    SetVolume(i64),
    Seek(i64),
    PlayPause,
    PlayNext,
    PlayPrevious,
    Scroll(i16),
    EnterCommandMode(bool),
    PauseAfter(u64),
    QuitAfter(u64),
}

/// `n`, or the nearer of `low` and `high` where it lies outside them.
pub open spec fn clamped(n: int, low: int, high: int) -> int {
    if n < low {
        low
    } else if n > high {
        high
    } else {
        n
    }
}

/// The command that the word `name` gives with the argument `arg`.
pub open spec fn spec_command_of(name: Seq<char>, arg: Option<Seq<char>>) -> Option<TuiCommand> {
    if name == "quit"@ || name == "q"@ {
        Some(TuiCommand::Quit)
    } else if name == "vol"@ {
        match arg {
            Some(a) => match spec_parse_i64(a) {
                Some(v) => if a[0] == '+' || a[0] == '-' {
                    Some(TuiCommand::Volume(clamped(v as int, -200, 200) as i64))
                } else {
                    Some(TuiCommand::SetVolume(clamped(v as int, 0, 200) as i64))
                },
                None => None,
            },
            None => None,
        }
    } else if name == "seek"@ {
        match arg {
            Some(a) => match spec_parse_millis(a) {
                Some(offset) => Some(TuiCommand::Seek(offset)),
                None => None,
            },
            None => None,
        }
    } else if name == "play-pause"@ {
        Some(TuiCommand::PlayPause)
    } else if name == "play-next"@ {
        Some(TuiCommand::PlayNext)
    } else if name == "play-prev"@ {
        Some(TuiCommand::PlayPrevious)
    } else if name == "pause-after"@ {
        match arg {
            Some(a) => match spec_parse_u64(a) {
                Some(minutes) => Some(TuiCommand::PauseAfter(minutes)),
                None => None,
            },
            None => None,
        }
    } else if name == "quit-after"@ {
        match arg {
            Some(a) => match spec_parse_u64(a) {
                Some(minutes) => Some(TuiCommand::QuitAfter(minutes)),
                None => None,
            },
            None => None,
        }
    } else {
        None
    }
}

/// The command that the line `s` writes: one or two words, the first of them
/// the command's name, the second its argument.
pub open spec fn spec_map_command(s: Seq<char>) -> Option<TuiCommand> {
    let words = tokens(s);
    if words.len() == 0 || words.len() > 2 {
        None
    } else {
        spec_command_of(
            words[0],
            if words.len() == 2 {
                Some(words[1])
            } else {
                None
            },
        )
    }
}

/// The names `vol` and `seek` differ from each other and from `quit` and `q`.
proof fn lemma_command_names()
    ensures
        "vol"@ != "quit"@,
        "vol"@ != "q"@,
        "seek"@ != "quit"@,
        "seek"@ != "q"@,
        "seek"@ != "vol"@,
{
    reveal_strlit("quit");
    reveal_strlit("q");
    reveal_strlit("vol");
    reveal_strlit("seek");
    assert("vol"@.len() == 3 && "q"@.len() == 1 && "quit"@.len() == 4 && "seek"@.len() == 4);
    assert("seek"@[0] == 's' && "quit"@[0] == 'q');
}

/// Reads the argument of `vol`.
fn volume_command(arg: &Vec<char>) -> (r: Option<TuiCommand>)
    ensures
        r == spec_command_of("vol"@, Some(arg@)),
{
    proof {
        lemma_command_names();
    }
    match parse_i64(arg) {
        None => None,
        Some(v) => {
            if arg[0] == '+' || arg[0] == '-' {
                let volume: i64 = if v < -200 {
                    -200
                } else if v > 200 {
                    200
                } else {
                    v
                };
                Some(TuiCommand::Volume(volume))
            } else {
                let volume: i64 = if v < 0 {
                    0
                } else if v > 200 {
                    200
                } else {
                    v
                };
                Some(TuiCommand::SetVolume(volume))
            }
        },
    }
}

/// Reads a command's name and argument.
fn command_of(name: &Vec<char>, arg: Option<&Vec<char>>) -> (r: Option<TuiCommand>)
    ensures
        r == spec_command_of(
            name@,
            match arg {
                Some(a) => Some(a@),
                None => None,
            },
        ),
{
    if is_word(name, "quit") || is_word(name, "q") {
        Some(TuiCommand::Quit)
    } else if is_word(name, "vol") {
        match arg {
            Some(a) => volume_command(a),
            None => None,
        }
    } else if is_word(name, "seek") {
        match arg {
            Some(a) => match parse_millis(a) {
                Some(offset) => Some(TuiCommand::Seek(offset)),
                None => None,
            },
            None => None,
        }
    } else if is_word(name, "play-pause") {
        Some(TuiCommand::PlayPause)
    } else if is_word(name, "play-next") {
        Some(TuiCommand::PlayNext)
    } else if is_word(name, "play-prev") {
        Some(TuiCommand::PlayPrevious)
    } else if is_word(name, "pause-after") {
        match arg {
            Some(a) => match parse_u64(a) {
                Some(minutes) => Some(TuiCommand::PauseAfter(minutes)),
                None => None,
            },
            None => None,
        }
    } else if is_word(name, "quit-after") {
        match arg {
            Some(a) => match parse_u64(a) {
                Some(minutes) => Some(TuiCommand::QuitAfter(minutes)),
                None => None,
            },
            None => None,
        }
    } else {
        None
    }
}

/// Reads a line of the command grammar given as characters.
pub fn map_chars_to_tuicommand(line: &Vec<char>) -> (r: Option<TuiCommand>)
    ensures
        r == spec_map_command(line@),
{
    let words = split_words(line);
    assert(texts(words@).len() == words.len());
    if words.len() == 0 || words.len() > 2 {
        None
    } else {
        assert(texts(words@)[0] == words[0]@);
        if words.len() == 2 {
            assert(texts(words@)[1] == words[1]@);
            command_of(&words[0], Some(&words[1]))
        } else {
            command_of(&words[0], None)
        }
    }
}

/// Reads a line of the command grammar: `quit` or `q`; `vol` with a signed
/// number for a change of volume or an unsigned one for a volume; `seek` with
/// a number of seconds; `play-pause`, `play-next`, `play-prev`; `pause-after`
/// and `quit-after` with a number of minutes. Anything else gives no command.
pub fn map_str_to_tuicommand(str: &str) -> (r: Option<TuiCommand>)
    ensures
        r == spec_map_command(str@),
{
    let line = chars_of(str);
    map_chars_to_tuicommand(&line)
}

/// A line of more than two words writes no command, and neither does a line
/// whose first word is `vol` or `seek` without a number behind it.
pub proof fn law_grammar_rejects(s: Seq<char>)
    ensures
        tokens(s).len() > 2 ==> spec_map_command(s) is None,
        tokens(s).len() == 1 && (tokens(s)[0] == "vol"@ || tokens(s)[0] == "seek"@)
            ==> spec_map_command(s) is None,
        tokens(s).len() == 2 && tokens(s)[0] == "seek"@ && spec_parse_millis(tokens(s)[1]) is None
            ==> spec_map_command(s) is None,
        tokens(s).len() == 2 && tokens(s)[0] == "vol"@ && spec_parse_i64(tokens(s)[1]) is None
            ==> spec_map_command(s) is None,
{
    lemma_command_names();
}

/// Every volume that the grammar gives lies within the limits: a change of
/// volume within -200 and 200, a volume within 0 and 200.
pub proof fn law_grammar_volume_limits(s: Seq<char>)
    ensures
        spec_map_command(s) matches Some(TuiCommand::Volume(v)) ==> -200 <= v <= 200,
        spec_map_command(s) matches Some(TuiCommand::SetVolume(v)) ==> 0 <= v <= 200,
{
}

/// The hours, minutes and seconds that `seconds` make, each with at least two
/// digits and with colons between them.
pub open spec fn spec_secs_to_hms(seconds: u64) -> Seq<char> {
    two_digits((seconds / 3600) as nat) + seq![':'] + two_digits(((seconds % 3600) / 60) as nat)
        + seq![':'] + two_digits((seconds % 60) as nat)
}

/// Appends `seconds` as hours, minutes and seconds.
pub fn push_hms(out: &mut Vec<char>, seconds: u64)
    ensures
        final(out)@ == old(out)@ + spec_secs_to_hms(seconds),
{
    let h: u64 = seconds / 3600;
    let m: u64 = (seconds - h * 3600) / 60;
    let s: u64 = seconds - h * 3600 - m * 60;
    assert(m == (seconds % 3600) / 60 && s == seconds % 60) by (nonlinear_arith)
        requires
            h == seconds / 3600,
            m == (seconds - h * 3600) / 60,
            s == seconds - h * 3600 - m * 60,
    ;
    push_two_digits(out, h);
    out.push(':');
    push_two_digits(out, m);
    out.push(':');
    push_two_digits(out, s);
    assert(out@ == old(out)@ + spec_secs_to_hms(seconds));
}

/// Writes `seconds` as hours, minutes and seconds.
pub fn secs_to_hms(seconds: u64) -> (r: String)
    ensures
        r@ == spec_secs_to_hms(seconds),
{
    let mut out: Vec<char> = Vec::new();
    push_hms(&mut out, seconds);
    string_of(&out)
}

/// The keys that the terminal actor tells apart.
#[derive(Debug, Clone, Copy, PartialEq, Eq, Structural)]
pub enum KeyCode {
    Char(char),
    Left,
    Right,
    Up,
    Down,
    Enter,
    Esc,
    Backspace,
    Other,
}

/// The modifier bit of the shift key.
pub const SHIFT: u8 = 1;

/// A key press: the key and the modifier keys held with it, one bit each.
#[derive(Debug, Clone, Copy, PartialEq, Eq, Structural)]
pub struct Key {
    pub code: KeyCode,
    pub modifiers: u8,
}

/// A key with the command it gives and, where the help lists it, a description.
#[derive(Debug, Clone, PartialEq, Eq)]
pub struct KeyBinding {
    pub key: Key,
    pub command: TuiCommand,
    pub description: Option<String>,
}

/// The command of the first binding of `key` among `bindings[from..]`.
pub open spec fn spec_lookup_from(bindings: Seq<KeyBinding>, key: Key, from: int) -> Option<
    TuiCommand,
>
    decreases bindings.len() - from,
{
    if from < 0 || from >= bindings.len() {
        None
    } else if bindings[from].key == key {
        Some(bindings[from].command)
    } else {
        spec_lookup_from(bindings, key, from + 1)
    }
}

/// The command that `key` is bound to: that of its first binding.
pub open spec fn spec_lookup(bindings: Seq<KeyBinding>, key: Key) -> Option<TuiCommand> {
    spec_lookup_from(bindings, key, 0)
}

/// Finds the command that `key` is bound to.
pub fn lookup(bindings: &Vec<KeyBinding>, key: Key) -> (r: Option<TuiCommand>)
    ensures
        r == spec_lookup(bindings@, key),
{
    let mut i: usize = 0;
    while i < bindings.len()
        invariant
            i <= bindings.len(),
            spec_lookup(bindings@, key) == spec_lookup_from(bindings@, key, i as int),
        decreases bindings.len() - i,
    {
        if bindings[i].key == key {
            return Some(bindings[i].command);
        }
        i += 1;
    }
    None
}

/// Whether no key is bound twice in `bindings`.
pub open spec fn distinct_keys(bindings: Seq<KeyBinding>) -> bool {
    forall|i: int, j: int|
        0 <= i < j < bindings.len() ==> (#[trigger] bindings[i]).key != (#[trigger] bindings[j]).key
}

/// Tells whether no key is bound twice in `bindings`.
pub fn keys_are_distinct(bindings: &Vec<KeyBinding>) -> (r: bool)
    ensures
        r == distinct_keys(bindings@),
{
    let mut j: usize = 0;
    while j < bindings.len()
        invariant
            j <= bindings.len(),
            distinct_keys(bindings@.take(j as int)),
        decreases bindings.len() - j,
    {
        let mut i: usize = 0;
        while i < j
            invariant
                i <= j < bindings.len(),
                forall|k: int|
                    0 <= k < i ==> (#[trigger] bindings[k]).key != bindings[j as int].key,
            decreases j - i,
        {
            if bindings[i].key == bindings[j].key {
                return false;
            }
            i += 1;
        }
        assert forall|a: int, b: int| 0 <= a < b < j + 1 implies (#[trigger] bindings@.take(
            j + 1,
        )[a]).key != (#[trigger] bindings@.take(j + 1)[b]).key by {
            if b < j {
                assert(bindings@.take(j as int)[a].key != bindings@.take(j as int)[b].key);
            }
        }
        j += 1;
    }
    assert(bindings@.take(bindings.len() as int) == bindings@);
    true
}

/// Where no key is bound twice, a key gives the command of its one binding.
pub proof fn law_lookup_finds_the_binding(bindings: Seq<KeyBinding>, i: int)
    requires
        distinct_keys(bindings),
        0 <= i < bindings.len(),
    ensures
        spec_lookup(bindings, bindings[i].key) == Some(bindings[i].command),
{
    lemma_lookup_from(bindings, i, 0);
}

/// A search that begins at or before the one binding of a key finds it.
proof fn lemma_lookup_from(bindings: Seq<KeyBinding>, i: int, from: int)
    requires
        distinct_keys(bindings),
        0 <= from <= i < bindings.len(),
    ensures
        spec_lookup_from(bindings, bindings[i].key, from) == Some(bindings[i].command),
    decreases i - from,
{
    if from < i {
        lemma_lookup_from(bindings, i, from + 1);
    }
}

/// The command that a key gives where nothing else has been bound.
pub open spec fn default_command(key: Key) -> Option<TuiCommand> {
    if key.modifiers == 0 {
        match key.code {
            KeyCode::Char(c) => if c == '1' {
                Some(TuiCommand::State(TuiState::Player))
            } else if c == '2' {
                Some(TuiCommand::State(TuiState::History))
            } else if c == '0' {
                Some(TuiCommand::State(TuiState::Help))
            } else if c == 'q' {
                Some(TuiCommand::Quit)
            } else if c == '{' {
                Some(TuiCommand::Volume((-1) as i64))
            } else if c == '}' {
                Some(TuiCommand::Volume(1))
            } else if c == '[' {
                Some(TuiCommand::Volume((-10) as i64))
            } else if c == ']' {
                Some(TuiCommand::Volume(10))
            } else if c == ' ' {
                Some(TuiCommand::PlayPause)
            } else if c == 'z' {
                Some(TuiCommand::PlayPrevious)
            } else if c == 'b' {
                Some(TuiCommand::PlayNext)
            } else if c == 'j' {
                Some(TuiCommand::Scroll(1))
            } else if c == 'k' {
                Some(TuiCommand::Scroll((-1) as i16))
            } else if c == ':' {
                Some(TuiCommand::EnterCommandMode(true))
            } else {
                None
            },
            KeyCode::Left => Some(TuiCommand::Seek((-10_000) as i64)),
            KeyCode::Right => Some(TuiCommand::Seek(10_000)),
            KeyCode::Esc => Some(TuiCommand::EnterCommandMode(false)),
            _ => None,
        }
    } else if key.modifiers == SHIFT {
        match key.code {
            KeyCode::Left => Some(TuiCommand::Seek((-60_000) as i64)),
            KeyCode::Right => Some(TuiCommand::Seek(60_000)),
            _ => None,
        }
    } else {
        None
    }
}

/// How the help describes a key where nothing else has been bound; the keys
/// that open and close the command line are not described.
pub open spec fn default_description(key: Key) -> Option<Seq<char>> {
    if key.modifiers == 0 {
        match key.code {
            KeyCode::Char(c) => if c == '1' {
                Some("view player"@)
            } else if c == '2' {
                Some("view history"@)
            } else if c == '0' {
                Some("view help"@)
            } else if c == 'q' {
                Some("quit, q"@)
            } else if c == '{' {
                Some("vol -1"@)
            } else if c == '}' {
                Some("vol +1"@)
            } else if c == '[' {
                Some("vol -10"@)
            } else if c == ']' {
                Some("vol +10"@)
            } else if c == ' ' {
                Some("play-pause"@)
            } else if c == 'z' {
                Some("play-prev"@)
            } else if c == 'b' {
                Some("play-prev"@)
            } else if c == 'j' {
                Some("scroll +1"@)
            } else if c == 'k' {
                Some("scroll -1"@)
            } else {
                None
            },
            KeyCode::Left => Some("seek -10"@),
            KeyCode::Right => Some("seek +10"@),
            _ => None,
        }
    } else if key.modifiers == SHIFT {
        match key.code {
            KeyCode::Left => Some("seek -60"@),
            KeyCode::Right => Some("seek -60"@),
            _ => None,
        }
    } else {
        None
    }
}

/// The description of a binding as text.
pub open spec fn description_text(binding: KeyBinding) -> Option<Seq<char>> {
    match binding.description {
        Some(d) => Some(d@),
        None => None,
    }
}

/// A binding of the key `code`, held with `modifiers`.
fn binding(code: KeyCode, modifiers: u8, command: TuiCommand, description: Option<&str>) -> (b:
    KeyBinding)
    ensures
        b.key == (Key { code, modifiers }),
        b.command == command,
        description_text(b) == match description {
            Some(d) => Some(d@),
            None => None,
        },
{
    KeyBinding {
        key: Key { code, modifiers },
        command,
        description: match description {
            Some(d) => Some(d.to_owned()),
            None => None,
        },
    }
}

/// The bindings that a session starts with: one for each key that gives a
/// command, each with its description.
pub fn default_keybindings() -> (bindings: Vec<KeyBinding>)
    ensures
        forall|key: Key| spec_lookup(bindings@, key) == default_command(key),
        forall|i: int|
            0 <= i < bindings.len() ==> description_text(#[trigger] bindings[i])
                == default_description(bindings[i].key),
        forall|i: int, j: int|
            0 <= i < j < bindings.len() ==> (#[trigger] bindings[i]).key
                != (#[trigger] bindings[j]).key,
{
    let mut b: Vec<KeyBinding> = Vec::new();
    b.push(
        binding(KeyCode::Char('1'), 0, TuiCommand::State(TuiState::Player), Some("view player")),
    );
    b.push(
        binding(KeyCode::Char('2'), 0, TuiCommand::State(TuiState::History), Some("view history")),
    );
    b.push(binding(KeyCode::Char('0'), 0, TuiCommand::State(TuiState::Help), Some("view help")));
    b.push(binding(KeyCode::Char('q'), 0, TuiCommand::Quit, Some("quit, q")));
    b.push(binding(KeyCode::Char('{'), 0, TuiCommand::Volume(-1), Some("vol -1")));
    b.push(binding(KeyCode::Char('}'), 0, TuiCommand::Volume(1), Some("vol +1")));
    b.push(binding(KeyCode::Char('['), 0, TuiCommand::Volume(-10), Some("vol -10")));
    b.push(binding(KeyCode::Char(']'), 0, TuiCommand::Volume(10), Some("vol +10")));
    b.push(binding(KeyCode::Left, 0, TuiCommand::Seek(-10_000), Some("seek -10")));
    b.push(binding(KeyCode::Left, SHIFT, TuiCommand::Seek(-60_000), Some("seek -60")));
    b.push(binding(KeyCode::Right, 0, TuiCommand::Seek(10_000), Some("seek +10")));
    b.push(binding(KeyCode::Right, SHIFT, TuiCommand::Seek(60_000), Some("seek -60")));
    b.push(binding(KeyCode::Char(' '), 0, TuiCommand::PlayPause, Some("play-pause")));
    b.push(binding(KeyCode::Char('z'), 0, TuiCommand::PlayPrevious, Some("play-prev")));
    b.push(binding(KeyCode::Char('b'), 0, TuiCommand::PlayNext, Some("play-prev")));
    b.push(binding(KeyCode::Char('j'), 0, TuiCommand::Scroll(1), Some("scroll +1")));
    b.push(binding(KeyCode::Char('k'), 0, TuiCommand::Scroll(-1), Some("scroll -1")));
    b.push(binding(KeyCode::Char(':'), 0, TuiCommand::EnterCommandMode(true), None));
    b.push(binding(KeyCode::Esc, 0, TuiCommand::EnterCommandMode(false), None));
    proof {
        reveal_with_fuel(spec_lookup_from, 20);
    }
    b
}

/// The state of the terminal actor. Times are in milliseconds.
#[derive(Debug, Clone)]
pub struct Tui {
    /// The view on screen.
    pub state: TuiState,
    /// Whether keys go to the command line.
    pub command_mode: bool,
    /// The text of the command line.
    pub command_text: Vec<char>,
    /// Whether the last line entered was no command.
    pub command_error: bool,
    /// Where in the command line the next character goes.
    pub cursor_position: usize,
    /// The keys that give commands; no key is bound twice.
    pub keybindings: Vec<KeyBinding>,
    /// The names that the terminal library gives to the keys bound, one for
    /// each binding.
    pub key_names: Vec<KeyNames>,
    pub projection: PlaybackProjection,
    /// One line for each track that was loaded.
    pub history: Vec<Vec<char>>,
    /// The playlist position of the current track.
    pub current: i64,
    /// The first line shown of the history and of the help.
    pub scroll: usize,
    /// When to pause, where that was asked for.
    pub pause_after: Option<u64>,
    /// When to quit, where that was asked for.
    pub quit_after: Option<u64>,
}

/// The state of the terminal actor as a value of mathematics.
pub struct TuiView {
    pub state: TuiState,
    pub command_mode: bool,
    pub command_text: Seq<char>,
    pub command_error: bool,
    pub cursor_position: usize,
    pub keybindings: Seq<KeyBinding>,
    pub key_names: Seq<KeyNames>,
    pub projection: PlaybackProjection,
    pub history: Seq<Seq<char>>,
    pub current: i64,
    pub scroll: usize,
    pub pause_after: Option<u64>,
    pub quit_after: Option<u64>,
}

/// What a turn of the terminal actor leads to: the state after it, the
/// commands to send to the engine event loop, in order, and whether the actor
/// is to stop after sending them.
pub struct TuiTurn {
    pub next: TuiView,
    pub messages: Seq<LibMpvMessage>,
    pub quit: bool,
}

/// What the caller of a turn is to do: send `messages` to the engine event
/// loop, in order, and then stop if `quit` is set.
#[derive(Debug, Clone, PartialEq, Eq)]
pub struct TuiOutput {
    pub messages: Vec<LibMpvMessage>,
    pub quit: bool,
}

/// The characters that the command line takes besides the space.
pub open spec fn is_command_char(c: char) -> bool {
    ('0' <= c <= '9') || ('a' <= c <= 'z') || ('A' <= c <= 'Z') || c == '-' || c == '+'
}

/// The line that the history keeps of a track.
pub open spec fn spec_entry(title: Seq<char>, artist: Option<Seq<char>>) -> Seq<char> {
    match artist {
        Some(a) => title + " by "@ + a,
        None => title,
    }
}

/// The moment `minutes` after `now`, or the last moment of the clock where
/// that lies beyond it.
pub open spec fn spec_deadline(now: u64, minutes: u64) -> u64 {
    if now + minutes * 60_000 > u64::MAX {
        u64::MAX
    } else {
        (now + minutes * 60_000) as u64
    }
}

impl TuiView {
    /// The cursor lies within the command line, no key is bound twice, and
    /// each binding has the names of its keys.
    pub open spec fn wf(self) -> bool {
        &&& self.cursor_position <= self.command_text.len()
        &&& distinct_keys(self.keybindings)
        &&& self.key_names.len() == self.keybindings.len()
    }

    /// The command line closed and emptied.
    pub open spec fn closed(self) -> TuiView {
        TuiView {
            command_mode: false,
            command_text: Seq::empty(),
            cursor_position: 0,
            ..self
        }
    }

    /// What a key does to the command line while it is open, and the command
    /// that it enters. A letter, a digit, `-` or `+` goes in at the cursor; a
    /// space only at the end of the line; the arrows move the cursor and
    /// backspace takes the character before it; escape closes the line, and
    /// enter closes it and reads it.
    pub open spec fn press(self, code: KeyCode) -> (TuiView, Option<TuiCommand>) {
        let at = self.cursor_position as int;
        match code {
            KeyCode::Char(c) => if is_command_char(c) || (c == ' ' && at
                == self.command_text.len()) {
                (
                    TuiView {
                        command_text: self.command_text.insert(at, c),
                        cursor_position: (at + 1) as usize,
                        ..self
                    },
                    None,
                )
            } else {
                (self, None)
            },
            KeyCode::Backspace => if at > 0 {
                (
                    TuiView {
                        command_text: self.command_text.remove(at - 1),
                        cursor_position: (at - 1) as usize,
                        ..self
                    },
                    None,
                )
            } else {
                (self, None)
            },
            KeyCode::Esc => (self.closed(), None),
            KeyCode::Enter => {
                let command = spec_map_command(self.command_text);
                (
                    TuiView {
                        command_error: command is None && tokens(self.command_text).len() > 0,
                        ..self.closed()
                    },
                    command,
                )
            },
            KeyCode::Left => if at > 0 {
                (TuiView { cursor_position: (at - 1) as usize, ..self }, None)
            } else {
                (self, None)
            },
            KeyCode::Right => if at < self.command_text.len() {
                (TuiView { cursor_position: (at + 1) as usize, ..self }, None)
            } else {
                (self, None)
            },
            _ => (self, None),
        }
    }

    /// What carrying out `command` at the time `now` leads to.
    pub open spec fn execute(self, command: TuiCommand, now: u64) -> TuiTurn {
        let stay = TuiTurn { next: self, messages: Seq::empty(), quit: false };
        match command {
            TuiCommand::State(state) => TuiTurn { next: TuiView { state, ..self }, ..stay },
            TuiCommand::Quit => TuiTurn { messages: seq![LibMpvMessage::Quit], quit: true, ..stay },
            TuiCommand::Volume(delta) => TuiTurn {
                messages: seq![LibMpvMessage::AdjustVolume(delta)],
                ..stay
            },
            TuiCommand::SetVolume(volume) => TuiTurn {
                messages: seq![LibMpvMessage::SetVolume(volume)],
                ..stay
            },
            TuiCommand::Seek(offset) => TuiTurn {
                messages: seq![LibMpvMessage::SeekRelative(offset)],
                ..stay
            },
            TuiCommand::PlayPause => TuiTurn { messages: seq![LibMpvMessage::TogglePause], ..stay },
            TuiCommand::PlayNext => TuiTurn { messages: seq![LibMpvMessage::PlayNext], ..stay },
            TuiCommand::PlayPrevious => TuiTurn {
                messages: seq![LibMpvMessage::PlayPrevious],
                ..stay
            },
            TuiCommand::Scroll(lines) => if lines > 0 && self.scroll + 1 < self.history.len() {
                TuiTurn { next: TuiView { scroll: (self.scroll + 1) as usize, ..self }, ..stay }
            } else if lines < 0 && self.scroll > 0 {
                TuiTurn { next: TuiView { scroll: (self.scroll - 1) as usize, ..self }, ..stay }
            } else {
                stay
            },
            TuiCommand::EnterCommandMode(enter) => TuiTurn {
                next: TuiView { command_mode: enter, ..self },
                ..stay
            },
            TuiCommand::PauseAfter(minutes) => TuiTurn {
                next: TuiView {
                    pause_after: Some(spec_deadline(now, minutes)),
                    quit_after: None,
                    ..self
                },
                ..stay
            },
            TuiCommand::QuitAfter(minutes) => TuiTurn {
                next: TuiView {
                    quit_after: Some(spec_deadline(now, minutes)),
                    pause_after: None,
                    ..self
                },
                ..stay
            },
        }
    }

    /// What the key `key`, pressed at the time `now`, leads to. Any key takes
    /// the error away. With the command line open the key goes to it; else the
    /// key gives the command that it is bound to, if any.
    pub open spec fn on_key(self, key: Key, now: u64) -> TuiTurn {
        let fresh = TuiView { command_error: false, ..self };
        let (edited, command) = if self.command_mode {
            fresh.press(key.code)
        } else {
            (fresh, spec_lookup(self.keybindings, key))
        };
        match command {
            Some(c) => edited.execute(c, now),
            None => TuiTurn { next: edited, messages: Seq::empty(), quit: false },
        }
    }

    /// What the event `event`, seen at the time `now`, leads to. Every event
    /// goes to the projection. A loaded track gets a line in the history where
    /// the playlist position lies beyond the lines kept so far; the event that
    /// ends the session stops the actor.
    pub open spec fn on_event(self, event: LibMpvEventMessage, now: u64) -> TuiTurn {
        let seen = TuiView { projection: self.projection.spec_apply(event, now), ..self };
        let stay = TuiTurn { next: seen, messages: Seq::empty(), quit: false };
        match event {
            LibMpvEventMessage::TrackLoaded(data) => if self.current < 0 || self.current
                >= self.history.len() {
                TuiTurn {
                    next: TuiView {
                        history: self.history.push(
                            decimal(self.history.len()) + ": "@ + spec_entry(
                                data.media_title@,
                                match data.artist {
                                    Some(a) => Some(a@),
                                    None => None,
                                },
                            ),
                        ),
                        ..seen
                    },
                    ..stay
                }
            } else {
                stay
            },
            LibMpvEventMessage::PlaylistPositionChanged(position) => TuiTurn {
                next: TuiView { current: position, ..seen },
                ..stay
            },
            LibMpvEventMessage::Quit => TuiTurn { quit: true, ..stay },
            _ => stay,
        }
    }

    /// What the passing of time leads to at the time `now`: a pause or a quit
    /// that was asked for and is due is sent, once.
    pub open spec fn on_tick(self, now: u64) -> TuiTurn {
        let pause_due = self.pause_after matches Some(at) && at <= now;
        let quit_due = self.quit_after matches Some(at) && at <= now;
        TuiTurn {
            next: TuiView {
                pause_after: if pause_due {
                    None
                } else {
                    self.pause_after
                },
                quit_after: if quit_due {
                    None
                } else {
                    self.quit_after
                },
                ..self
            },
            messages: (if pause_due {
                seq![LibMpvMessage::Pause]
            } else {
                Seq::empty()
            }) + (if quit_due {
                seq![LibMpvMessage::Quit]
            } else {
                Seq::empty()
            }),
            quit: quit_due,
        }
    }
}

impl View for Tui {
    type V = TuiView;

    open spec fn view(&self) -> TuiView {
        TuiView {
            state: self.state,
            command_mode: self.command_mode,
            command_text: self.command_text@,
            command_error: self.command_error,
            cursor_position: self.cursor_position,
            keybindings: self.keybindings@,
            key_names: self.key_names@,
            projection: self.projection,
            history: texts(self.history@),
            current: self.current,
            scroll: self.scroll,
            pause_after: self.pause_after,
            quit_after: self.quit_after,
        }
    }
}

/// The moment `minutes` after `now`.
fn deadline(now: u64, minutes: u64) -> (at: u64)
    ensures
        at == spec_deadline(now, minutes),
{
    match minutes.checked_mul(60_000) {
        Some(delay) => match now.checked_add(delay) {
            Some(at) => at,
            None => u64::MAX,
        },
        None => u64::MAX,
    }
}

/// Whether the command line takes `c` besides the space.
fn takes_char(c: char) -> (r: bool)
    ensures
        r == is_command_char(c),
{
    ('0' <= c && c <= '9') || ('a' <= c && c <= 'z') || ('A' <= c && c <= 'Z') || c == '-' || c
        == '+'
}

/// Appends the line that the history keeps of a track.
fn push_entry(out: &mut Vec<char>, title: &String, artist: &Option<String>)
    ensures
        final(out)@ == old(out)@ + spec_entry(
            title@,
            match *artist {
                Some(a) => Some(a@),
                None => None,
            },
        ),
{
    push_str(out, title.as_str());
    match artist {
        Some(a) => {
            push_str(out, " by ");
            push_str(out, a.as_str());
            assert(out@ == old(out)@ + (title@ + " by "@ + a@));
        },
        None => {},
    }
}

impl Tui {
    /// The terminal actor at the start of a session, at the time `now`: the
    /// player on screen, the command line closed and empty, nothing played yet.
    pub fn new(keybindings: Vec<KeyBinding>, now: u64) -> (tui: Self)
        requires
            distinct_keys(keybindings@),
        ensures
            tui@.wf(),
            tui@.state == TuiState::Player,
            !tui@.command_mode,
            tui@.command_text.len() == 0,
            !tui@.command_error,
            tui@.keybindings == keybindings@,
            tui@.history.len() == 0,
            tui@.current == 0,
            tui@.scroll == 0,
            tui@.pause_after is None,
            tui@.quit_after is None,
            tui@.cursor_position == 0,
            tui@.projection.anchor_wallclock == now,
            tui@.projection.anchor_position == 0,
            tui@.projection.paused,
            !tui@.projection.ready,
            tui@.projection.duration == 0,
            tui@.projection.volume == 0,
            tui@.projection.title@.len() == 0,
            tui@.projection.artist is None,
    {
        Tui {
            state: TuiState::Player,
            command_mode: false,
            command_text: Vec::new(),
            command_error: false,
            cursor_position: 0,
            key_names: key_names_of(&keybindings),
            keybindings,
            projection: PlaybackProjection::new(now),
            history: Vec::new(),
            current: 0,
            scroll: 0,
            pause_after: None,
            quit_after: None,
        }
    }

    /// Hands a key to the open command line and gives the command that it
    /// enters.
    fn press(&mut self, code: KeyCode) -> (command: Option<TuiCommand>)
        requires
            old(self)@.wf(),
        ensures
            final(self)@.wf(),
            final(self)@ == old(self)@.press(code).0,
            command == old(self)@.press(code).1,
    {
        let mut command: Option<TuiCommand> = None;
        match code {
            KeyCode::Char(c) => {
                if takes_char(c) || (c == ' ' && self.cursor_position == self.command_text.len()) {
                    self.command_text.insert(self.cursor_position, c);
                    assert(self.cursor_position < self.command_text.len());
                    self.cursor_position += 1;
                }
            },
            KeyCode::Backspace => {
                if self.cursor_position > 0 {
                    self.command_text.remove(self.cursor_position - 1);
                    self.cursor_position -= 1;
                }
            },
            KeyCode::Esc => {
                self.command_mode = false;
                self.command_text = Vec::new();
                self.cursor_position = 0;
            },
            KeyCode::Enter => {
                let words = split_words(&self.command_text);
                assert(texts(words@).len() == words.len());
                command = map_chars_to_tuicommand(&self.command_text);
                self.command_error = command.is_none() && words.len() > 0;
                self.command_mode = false;
                self.command_text = Vec::new();
                self.cursor_position = 0;
            },
            KeyCode::Left => {
                if self.cursor_position > 0 {
                    self.cursor_position -= 1;
                }
            },
            KeyCode::Right => {
                if self.cursor_position < self.command_text.len() {
                    self.cursor_position += 1;
                }
            },
            _ => {},
        }
        command
    }

    /// Carries out `command` at the time `now`.
    pub fn execute(&mut self, command: TuiCommand, now: u64) -> (out: TuiOutput)
        ensures
            final(self)@ == old(self)@.execute(command, now).next,
            out.messages@ == old(self)@.execute(command, now).messages,
            out.quit == old(self)@.execute(command, now).quit,
            old(self)@.wf() ==> final(self)@.wf(),
    {
        let mut messages: Vec<LibMpvMessage> = Vec::new();
        let mut quit = false;
        assert(texts(self.history@).len() == self.history.len());
        match command {
            TuiCommand::State(state) => {
                self.state = state;
            },
            TuiCommand::Quit => {
                messages.push(LibMpvMessage::Quit);
                quit = true;
            },
            TuiCommand::Volume(delta) => {
                messages.push(LibMpvMessage::AdjustVolume(delta));
            },
            TuiCommand::SetVolume(volume) => {
                messages.push(LibMpvMessage::SetVolume(volume));
            },
            TuiCommand::Seek(offset) => {
                messages.push(LibMpvMessage::SeekRelative(offset));
            },
            TuiCommand::PlayPause => {
                messages.push(LibMpvMessage::TogglePause);
            },
            TuiCommand::PlayNext => {
                messages.push(LibMpvMessage::PlayNext);
            },
            TuiCommand::PlayPrevious => {
                messages.push(LibMpvMessage::PlayPrevious);
            },
            TuiCommand::Scroll(lines) => {
                if lines > 0 && self.scroll < self.history.len() && self.scroll + 1
                    < self.history.len() {
                    self.scroll += 1;
                } else if lines < 0 && self.scroll > 0 {
                    self.scroll -= 1;
                }
            },
            TuiCommand::EnterCommandMode(enter) => {
                self.command_mode = enter;
            },
            TuiCommand::PauseAfter(minutes) => {
                self.pause_after = Some(deadline(now, minutes));
                self.quit_after = None;
            },
            TuiCommand::QuitAfter(minutes) => {
                self.quit_after = Some(deadline(now, minutes));
                self.pause_after = None;
            },
        }
        TuiOutput { messages, quit }
    }

    /// Takes the key `key`, pressed at the time `now`.
    pub fn on_key(&mut self, key: Key, now: u64) -> (out: TuiOutput)
        requires
            old(self)@.wf(),
        ensures
            final(self)@.wf(),
            final(self)@ == old(self)@.on_key(key, now).next,
            out.messages@ == old(self)@.on_key(key, now).messages,
            out.quit == old(self)@.on_key(key, now).quit,
    {
        self.command_error = false;
        let command = if self.command_mode {
            self.press(key.code)
        } else {
            lookup(&self.keybindings, key)
        };
        match command {
            Some(c) => self.execute(c, now),
            None => TuiOutput { messages: Vec::new(), quit: false },
        }
    }

    /// Takes the event `event`, seen at the time `now`, and says whether the
    /// actor is to stop.
    pub fn on_event(&mut self, event: LibMpvEventMessage, now: u64) -> (quit: bool)
        ensures
            final(self)@ == old(self)@.on_event(event, now).next,
            quit == old(self)@.on_event(event, now).quit,
            old(self)@.wf() ==> final(self)@.wf(),
    {
        let mut quit = false;
        assert(texts(self.history@).len() == self.history.len());
        match &event {
            LibMpvEventMessage::TrackLoaded(data) => {
                if self.current < 0 || self.current as u64 >= self.history.len() as u64 {
                    let mut line: Vec<char> = Vec::new();
                    push_decimal(&mut line, self.history.len() as u64);
                    push_str(&mut line, ": ");
                    push_entry(&mut line, &data.media_title, &data.artist);
                    let ghost before = texts(self.history@);
                    let ghost added = line@;
                    self.history.push(line);
                    assert(texts(self.history@) == before.push(added));
                }
            },
            LibMpvEventMessage::PlaylistPositionChanged(position) => {
                self.current = *position;
            },
            LibMpvEventMessage::Quit => {
                quit = true;
            },
            _ => {},
        }
        self.projection.apply(event, now);
        quit
    }

    /// Lets time pass: sends what was asked for and is due at the time `now`.
    pub fn on_tick(&mut self, now: u64) -> (out: TuiOutput)
        ensures
            final(self)@ == old(self)@.on_tick(now).next,
            out.messages@ == old(self)@.on_tick(now).messages,
            out.quit == old(self)@.on_tick(now).quit,
            old(self)@.wf() ==> final(self)@.wf(),
    {
        let mut messages: Vec<LibMpvMessage> = Vec::new();
        let mut quit = false;
        if let Some(at) = self.pause_after {
            if at <= now {
                messages.push(LibMpvMessage::Pause);
                self.pause_after = None;
            }
        }
        if let Some(at) = self.quit_after {
            if at <= now {
                messages.push(LibMpvMessage::Quit);
                self.quit_after = None;
                quit = true;
            }
        }
        assert(messages@ =~= old(self)@.on_tick(now).messages);
        TuiOutput { messages, quit }
    }
}

/// The text of the history: its lines, one below the other, with a mark
/// before the line of the current track.
pub open spec fn spec_history_text(history: Seq<Seq<char>>, current: int) -> Seq<char>
    decreases history.len(),
{
    if history.len() == 0 {
        Seq::empty()
    } else {
        spec_history_text(history.drop_last(), current) + (if history.len() - 1 == current {
            "* "@
        } else {
            Seq::empty()
        }) + history.last() + seq!['\n']
    }
}

/// The text of the player: the track with its artist, and below it whether
/// playback runs, the position of the duration in whole seconds, and the
/// volume.
pub open spec fn spec_player_text(projection: PlaybackProjection, now: u64) -> Seq<char> {
    spec_entry(
        projection.title@,
        match projection.artist {
            Some(a) => Some(a@),
            None => None,
        },
    ) + seq!['\n'] + (if !projection.ready || projection.paused {
        "|"@
    } else {
        ">"@
    }) + seq![' '] + spec_secs_to_hms((projection.spec_position(now) / 1000) as u64) + " / "@
        + spec_secs_to_hms(
        (if projection.duration < 0 {
            0
        } else {
            projection.duration / 1000
        }) as u64,
    ) + " vol: "@ + signed_text(projection.volume as int)
}

/// The text of the player at the time `now`.
pub fn player_text(projection: &PlaybackProjection, now: u64) -> (out: Vec<char>)
    ensures
        out@ == spec_player_text(*projection, now),
{
    let mut out: Vec<char> = Vec::new();
    push_entry(&mut out, &projection.title, &projection.artist);
    out.push('\n');
    if !projection.ready || projection.paused {
        push_str(&mut out, "|");
    } else {
        push_str(&mut out, ">");
    }
    out.push(' ');
    let position = projection.position(now);
    push_hms(&mut out, (position / 1000) as u64);
    push_str(&mut out, " / ");
    let duration: i64 = if projection.duration < 0 {
        0
    } else {
        projection.duration / 1000
    };
    push_hms(&mut out, duration as u64);
    push_str(&mut out, " vol: ");
    push_signed(&mut out, projection.volume);
    assert(out@ == spec_player_text(*projection, now));
    out
}

/// The text of the history.
pub fn history_text(history: &Vec<Vec<char>>, current: i64) -> (out: Vec<char>)
    ensures
        out@ == spec_history_text(texts(history@), current as int),
{
    let mut out: Vec<char> = Vec::new();
    let mut i: usize = 0;
    let ghost lines = texts(history@);
    assert(lines.len() == history.len());
    assert(lines.take(0) == Seq::<Seq<char>>::empty());
    while i < history.len()
        invariant
            i <= history.len(),
            lines == texts(history@),
            lines.len() == history.len(),
            out@ == spec_history_text(lines.take(i as int), current as int),
        decreases history.len() - i,
    {
        let ghost before = out@;
        if current >= 0 && i as u64 == current as u64 {
            push_str(&mut out, "* ");
        }
        push_all(&mut out, &history[i]);
        out.push('\n');
        proof {
            let upto = lines.take(i + 1);
            assert(upto.drop_last() == lines.take(i as int));
            assert(upto.last() == history[i as int]@);
            assert(out@ == before + (if upto.len() - 1 == current {
                "* "@
            } else {
                Seq::empty()
            }) + upto.last() + seq!['\n']);
        }
        i += 1;
    }
    assert(lines.take(history.len() as int) == lines);
    out
}

/// What goes on the screen. The error and the command line share the row
/// below the text, the command line on top; the cursor, where there is one,
/// gives its column in that row.
#[derive(Debug, Clone, PartialEq, Eq)]
pub struct Screen {
    pub text: String,
    /// The first line of the text to show.
    pub scroll: u16,
    pub error: Option<String>,
    pub command: Option<String>,
    pub cursor: Option<u16>,
}

/// The column of the cursor in a command line whose cursor stands before the
/// character `cursor_position`: one further, for the colon that leads the
/// line, as far as columns are counted.
pub open spec fn spec_cursor_column(cursor_position: u16) -> u16 {
    if cursor_position < u16::MAX {
        (cursor_position + 1) as u16
    } else {
        u16::MAX
    }
}

/// Lays out the screen: the text from the line `scroll` on, the error if
/// there is one, and the command line, if it is open, behind a colon and with
/// the cursor in it.
pub fn draw(
    text: &str,
    scroll: u16,
    command: Option<&str>,
    error: Option<&str>,
    cursor_position: u16,
) -> (screen: Screen)
    ensures
        screen.text@ == text@,
        screen.scroll == scroll,
        screen.error is Some <==> error is Some,
        error matches Some(e) ==> screen.error->0@ == e@,
        screen.command is Some <==> command is Some,
        command matches Some(c) ==> screen.command->0@ == seq![':'] + c@,
        screen.cursor == match command {
            Some(_) => Some(spec_cursor_column(cursor_position)),
            None => None,
        },
{
    let shown_error = match error {
        Some(e) => Some(e.to_owned()),
        None => None,
    };
    match command {
        Some(c) => {
            let mut line: Vec<char> = Vec::new();
            line.push(':');
            push_str(&mut line, c);
            Screen {
                text: text.to_owned(),
                scroll,
                error: shown_error,
                command: Some(string_of(&line)),
                cursor: Some(
                    if cursor_position < u16::MAX {
                        cursor_position + 1
                    } else {
                        u16::MAX
                    },
                ),
            }
        },
        None => Screen {
            text: text.to_owned(),
            scroll,
            error: shown_error,
            command: None,
            cursor: None,
        },
    }
}

/// A count of lines or of characters as the screen counts them: the count
/// itself, or the largest that the screen can count.
pub open spec fn spec_on_screen(n: usize) -> u16 {
    if n > u16::MAX {
        u16::MAX
    } else {
        n as u16
    }
}

/// A count of lines or of characters as the screen counts them.
fn on_screen(n: usize) -> (r: u16)
    ensures
        r == spec_on_screen(n),
{
    if n > u16::MAX as usize {
        u16::MAX
    } else {
        n as u16
    }
}

/// Writes the text of the help: the commands of the grammar, then the keys
/// that are bound and described, in the order of their descriptions. The
/// keys go by the names that the terminal library gives them, whatever these
/// are.
pub fn generate_help_str(keybindings: &Vec<KeyBinding>) -> (help: String)
    ensures
        exists|names: Seq<KeyNames>|
            names.len() == keybindings.len() && help@ == spec_help(keybindings@, names),
{
    let names = key_names_of(keybindings);
    let out = help_text(keybindings, &names);
    string_of(&out)
}

/// What the terminal actor is handed in one turn.
#[derive(Debug, Clone, PartialEq, Eq)]
pub enum TuiInput {
    /// A key was pressed.
    Key(Key),
    /// The engine event loop published an event.
    Event(LibMpvEventMessage),
    /// Neither: time has passed.
    Tick,
}

impl TuiView {
    /// The text that the view on screen shows at the time `now`.
    pub open spec fn screen_text(self, now: u64) -> Seq<char> {
        match self.state {
            TuiState::Player => spec_player_text(self.projection, now),
            TuiState::History => spec_history_text(self.history, self.current as int),
            TuiState::Help => spec_help(self.keybindings, self.key_names),
        }
    }

    /// What one turn of the terminal actor leads to at the time `now`.
    pub open spec fn turn(self, input: TuiInput, now: u64) -> TuiTurn {
        match input {
            TuiInput::Key(key) => self.on_key(key, now),
            TuiInput::Event(event) => self.on_event(event, now),
            TuiInput::Tick => self.on_tick(now),
        }
    }
}

/// The text shown for a line that is no command.
pub open spec fn spec_error_text() -> Seq<char> {
    "Error: unknown command"@
}

impl Tui {
    /// Lays out the screen for the time `now`: the text of the view, which
    /// scrolls unless it is the player's; the error, if the last line entered
    /// was no command; and the command line, if it is open.
    pub fn frame(&self, now: u64) -> (screen: Screen)
        requires
            self@.wf(),
        ensures
            screen.text@ == self@.screen_text(now),
            screen.scroll == (if self@.state == TuiState::Player {
                0
            } else {
                spec_on_screen(self@.scroll)
            }),
            screen.error is Some <==> self@.command_error,
            self@.command_error ==> screen.error->0@ == spec_error_text(),
            screen.command is Some <==> self@.command_mode,
            self@.command_mode ==> screen.command->0@ == seq![':'] + self@.command_text,
            screen.cursor == (if self@.command_mode {
                Some(spec_cursor_column(spec_on_screen(self@.cursor_position)))
            } else {
                None
            }),
    {
        let text = match self.state {
            TuiState::Player => player_text(&self.projection, now),
            TuiState::History => history_text(&self.history, self.current),
            TuiState::Help => help_text(&self.keybindings, &self.key_names),
        };
        let text = string_of(&text);
        let scroll: u16 = match self.state {
            TuiState::Player => 0,
            _ => on_screen(self.scroll),
        };
        let line = string_of(&self.command_text);
        draw(
            text.as_str(),
            scroll,
            if self.command_mode {
                Some(line.as_str())
            } else {
                None
            },
            if self.command_error {
                Some("Error: unknown command")
            } else {
                None
            },
            on_screen(self.cursor_position),
        )
    }
}

/// Runs one turn of the terminal actor at the time `now`: takes a key, an
/// event or the passing of time, and says what is to be sent to the engine
/// event loop and whether the actor is to stop.
pub fn tui(state: &mut Tui, input: TuiInput, now: u64) -> (out: TuiOutput)
    requires
        old(state)@.wf(),
    ensures
        final(state)@.wf(),
        final(state)@ == old(state)@.turn(input, now).next,
        out.messages@ == old(state)@.turn(input, now).messages,
        out.quit == old(state)@.turn(input, now).quit,
{
    match input {
        TuiInput::Key(key) => state.on_key(key, now),
        TuiInput::Event(event) => {
            let quit = state.on_event(event, now);
            TuiOutput { messages: Vec::new(), quit }
        },
        TuiInput::Tick => state.on_tick(now),
    }
}

/// A turn of the terminal actor that stops it either has seen the event that
/// ends the session, or sends the command to quit as the last thing it
/// sends: the actor never stops without the engine event loop learning of it.
pub proof fn law_tui_quits_downstream(view: TuiView, input: TuiInput, now: u64)
    ensures
        ({
            let turn = view.turn(input, now);
            turn.quit ==> input == TuiInput::Event(LibMpvEventMessage::Quit) || (turn.messages.len()
                > 0 && turn.messages.last() == LibMpvMessage::Quit)
        }),
{
}

/// A line that is no command stays with the terminal actor: entering it
/// sends nothing and stops nothing, it closes the command line, and it shows
/// the error unless the line holds no word at all.
pub proof fn law_invalid_input_is_local(view: TuiView, modifiers: u8, now: u64)
    requires
        view.command_mode,
        spec_map_command(view.command_text) is None,
    ensures
        ({
            let turn = view.on_key(Key { code: KeyCode::Enter, modifiers }, now);
            &&& turn.messages.len() == 0
            &&& !turn.quit
            &&& !turn.next.command_mode
            &&& turn.next.command_text.len() == 0
            &&& turn.next.command_error == (tokens(view.command_text).len() > 0)
        }),
{
}

/// The history only grows, line by line at its end, and a loaded track adds a
/// line only where the playlist position lies beyond the lines kept: a track
/// that is loaded again at a position that has its line adds none.
pub proof fn law_history_is_append_only(view: TuiView, input: TuiInput, now: u64)
    ensures
        ({
            let next = view.turn(input, now).next;
            &&& view.history.is_prefix_of(next.history)
            &&& next.history.len() <= view.history.len() + 1
            &&& next.history.len() == view.history.len() + 1 ==> (input matches TuiInput::Event(
                LibMpvEventMessage::TrackLoaded(_),
            ) && !(0 <= view.current < view.history.len()))
        }),
{
    let next = view.turn(input, now).next;
    match input {
        TuiInput::Key(key) => {
            let fresh = TuiView { command_error: false, ..view };
            let edited = if view.command_mode {
                fresh.press(key.code).0
            } else {
                fresh
            };
            assert(edited.history == view.history);
            assert(next.history == view.history);
        },
        _ => {},
    }
    assert(view.history.is_prefix_of(next.history));
}

} // verus!
