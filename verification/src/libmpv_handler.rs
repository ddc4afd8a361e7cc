//! The engine event loop: the commands it takes, the events it gives out, and
//! the decisions it makes between the two.

use crate::SonicTunesError;
use vstd::prelude::*;

verus! {

/// A command from an actor to the engine event loop. Positions and offsets are
/// in milliseconds, volumes in percent.
#[derive(Debug, Clone, Copy, PartialEq, Eq, Structural)]
pub enum LibMpvMessage {
    Quit,
    AdjustVolume(i64),
    SetVolume(i64),
    SeekRelative(i64),
    SeekAbsolute(i64),
    Resume,
    Pause,
    TogglePause,
    PlayNext,
    PlayPrevious,
}

/// What is known of a track when the engine has loaded it. The duration is in
/// milliseconds, the volume in percent.
#[derive(Debug, Clone, PartialEq, Eq)]
pub struct FileLoadedData {
    pub media_title: String,
    pub artist: Option<String>,
    pub album: Option<String>,
    pub duration: i64,
    pub volume: i64,
}

/// An event from the engine event loop to its subscribers. Positions and
/// durations are in milliseconds, volumes in percent.
#[derive(Debug, Clone, PartialEq, Eq)]
pub enum LibMpvEventMessage {
    TrackStarting,
    TransportState(bool),
    TrackLoaded(FileLoadedData),
    VolumeChanged(i64),
    PositionChanged(i64),
    DurationChanged(i64),
    PlaylistPositionChanged(i64),
    Quit,
}

/// A failure that the engine reported: its own error code, or one of the
/// failures of the binding to it.
#[derive(Debug, Clone, Copy, PartialEq, Eq, Structural)]
pub enum EngineFault {
    Raw(i32),
    VersionMismatch,
    InvalidUtf8,
    Null,
    /// The engine's answer is not of the kind that was asked for.
    Unexpected,
}

/// The engine's code for a playlist step that cannot be taken: there is no
/// entry to step to.
pub const ADVANCE_UNAVAILABLE: i32 = -12;

/// The engine's reason for a file that ended because it was played to its end.
pub const END_OF_FILE: u32 = 0;

/// The lowest volume that a change of volume leads to.
pub const VOLUME_MIN: i64 = 0;

/// The highest volume that a change of volume leads to.
pub const VOLUME_MAX: i64 = 200;

/// What the engine reports when it is polled. Durations are in milliseconds.
#[derive(Debug, Clone, Copy, PartialEq, Eq, Structural)]
pub enum EngineSignal {
    StartFile,
    PlaybackRestart,
    PauseChanged(bool),
    VolumeChanged(i64),
    DurationChanged(i64),
    PlaylistPositionChanged(i64),
    Seek,
    FileLoaded,
    /// A file has ended, for the reason given.
    EndFile(u32),
    /// Anything else.
    Other,
}

/// What the event loop asks of the engine. Positions and offsets are in
/// milliseconds.
#[derive(Debug, Clone, PartialEq, Eq)]
pub enum EngineRequest {
    ReadPause,
    ReadTimePosition,
    ReadTrack,
    ReadVolume,
    ReadPlaylistPosition,
    ReadPlaylistCount,
    SetVolume(i64),
    SetPause(bool),
    TogglePause,
    SeekRelative(i64),
    SeekAbsolute(i64),
    /// Step to the next playlist entry; forced, the step is taken even where
    /// it ends playback.
    PlaylistNext { force: bool },
    PlaylistPrevious,
    /// Append the file at this address to the playlist, and play it if nothing
    /// is playing.
    LoadFile(String),
    /// Switch the video output off.
    DisableVideo,
    Quit,
}

/// What the engine gave when the properties of a loaded track were read: for
/// each property what was read, or the failure to read it. The duration is in
/// milliseconds.
#[derive(Debug, PartialEq, Eq)]
pub struct TrackReads {
    pub title: Result<String, EngineFault>,
    pub media_title: Result<String, EngineFault>,
    pub artist: Result<String, EngineFault>,
    pub album: Result<String, EngineFault>,
    pub duration: Result<i64, EngineFault>,
    pub volume: Result<i64, EngineFault>,
}

/// The engine's answer to a request.
#[derive(Debug, PartialEq, Eq)]
pub enum EngineReply {
    /// The request was carried out; it has no value to give.
    Done,
    Flag(bool),
    Number(i64),
    Millis(i64),
    Track(TrackReads),
    Failed(EngineFault),
}

/// What the event loop is handed in one turn.
#[derive(Debug, PartialEq, Eq)]
pub enum EngineInput {
    /// The engine reported something.
    Signal(EngineSignal),
    /// An actor sent a command.
    Command(LibMpvMessage),
    /// The engine's answer to the request of the turn before.
    Reply(EngineReply),
    /// What the continuation policy gave: the address of the next track, or
    /// nothing where the catalog is unavailable.
    Continuation(Option<String>),
    /// A channel to another actor is closed.
    ChannelClosed,
}

/// What the event loop wants done after a turn.
#[derive(Debug, PartialEq, Eq)]
pub enum EngineAction {
    /// Deliver this event to every subscriber.
    Publish(LibMpvEventMessage),
    /// Put this request to the engine and hand back its reply.
    Ask(EngineRequest),
    /// Run the continuation policy and hand back what it gives.
    FetchTrack,
    /// End the loop with this result.
    Stop(Result<(), SonicTunesError>),
}

/// What the event loop is waiting for.
#[derive(Debug, Clone, Copy, PartialEq, Eq, Structural)]
pub enum Pending {
    /// Nothing: the next signal or command.
    Idle,
    /// The pause flag, after playback restarted.
    RestartPause,
    /// The position, after a seek.
    SeekPosition,
    /// The properties of the track that was loaded.
    TrackReads,
    /// The outcome of a request that ends the turn.
    Effect,
    /// The next track, after a file played to its end.
    EndFileTrack,
    /// The volume, to change it by this much.
    VolumeRead(i64),
    /// The outcome of a step to the next entry that was not forced.
    NextStep,
    /// The playlist position, after that step could not be taken.
    NextPosition,
    /// The playlist's length; it holds the playlist position.
    NextCount(i64),
    /// The next track, to step to it.
    NextTrack,
    /// The outcome of appending that track.
    NextAppend,
    /// The outcome of a step to the entry before.
    PreviousStep,
    /// The outcome of the engine's own quit.
    Quitting,
    /// Nothing any more: the loop has ended.
    Stopped,
}

/// What the event loop keeps of the playlist.
#[derive(Debug, Clone, Copy, PartialEq, Eq, Structural)]
pub struct PlaylistState {
    /// The position of the entry that is playing, as the engine told it last;
    /// -1 while none is.
    pub playing_position: i64,
    /// Set until the first track has been loaded: while it is set a command to
    /// play the next track is passed over.
    pub ignore_next_until_loaded: bool,
}

/// The state of the engine event loop.
#[derive(Debug, Clone, Copy, PartialEq, Eq, Structural)]
pub struct LibMpvHandler {
    pub playlist: PlaylistState,
    pub pending: Pending,
}

/// What a turn of the event loop leads to: the state after it and what is to
/// be done, in order.
pub struct EngineTurn {
    pub next: LibMpvHandler,
    pub actions: Seq<EngineAction>,
}

/// What the subscribers are told of a loaded track: the title, or the media
/// title where the track has none; artist and album where they could be read;
/// the duration, or 0 where it could not be read; and the volume. Without a
/// title of either kind, or without the volume, the reading has failed.
pub open spec fn spec_track_loaded(reads: TrackReads) -> Result<FileLoadedData, EngineFault> {
    let title = match reads.title {
        Ok(t) => Ok(t),
        Err(_) => reads.media_title,
    };
    match (title, reads.volume) {
        (Err(fault), _) => Err(fault),
        (Ok(_), Err(fault)) => Err(fault),
        (Ok(media_title), Ok(volume)) => Ok(
            FileLoadedData {
                media_title,
                artist: match reads.artist {
                    Ok(a) => Some(a),
                    Err(_) => None,
                },
                album: match reads.album {
                    Ok(a) => Some(a),
                    Err(_) => None,
                },
                duration: match reads.duration {
                    Ok(d) => d,
                    Err(_) => 0,
                },
                volume,
            },
        ),
    }
}

/// Makes of the properties read of a loaded track what the subscribers are
/// told.
pub fn track_loaded(reads: TrackReads) -> (r: Result<FileLoadedData, EngineFault>)
    ensures
        r == spec_track_loaded(reads),
{
    let title = match reads.title {
        Ok(t) => Ok(t),
        Err(_) => reads.media_title,
    };
    let media_title = match title {
        Ok(t) => t,
        Err(fault) => {
            return Err(fault);
        },
    };
    let volume = match reads.volume {
        Ok(v) => v,
        Err(fault) => {
            return Err(fault);
        },
    };
    Ok(
        FileLoadedData {
            media_title,
            artist: match reads.artist {
                Ok(a) => Some(a),
                Err(_) => None,
            },
            album: match reads.album {
                Ok(a) => Some(a),
                Err(_) => None,
            },
            duration: match reads.duration {
                Ok(d) => d,
                Err(_) => 0,
            },
            volume,
        },
    )
}

/// The volume that a change by `delta` leads to from the volume `volume`:
/// their sum, kept within 0 and 200.
pub open spec fn spec_adjusted_volume(volume: i64, delta: i64) -> i64 {
    if volume + delta < VOLUME_MIN {
        VOLUME_MIN
    } else if volume + delta > VOLUME_MAX {
        VOLUME_MAX
    } else {
        (volume + delta) as i64
    }
}

/// The volume that a change by `delta` leads to from the volume `volume`.
pub fn adjusted_volume(volume: i64, delta: i64) -> (r: i64)
    ensures
        r == spec_adjusted_volume(volume, delta),
        VOLUME_MIN <= r <= VOLUME_MAX,
{
    let sum: i128 = volume as i128 + delta as i128;
    if sum < VOLUME_MIN as i128 {
        VOLUME_MIN
    } else if sum > VOLUME_MAX as i128 {
        VOLUME_MAX
    } else {
        sum as i64
    }
}

impl LibMpvHandler {
    /// The turn that changes nothing and asks for nothing.
    pub open spec fn stays(self) -> EngineTurn {
        EngineTurn { next: self, actions: Seq::empty() }
    }

    /// The turn that asks for `actions` and then waits for `pending`.
    pub open spec fn goes(self, pending: Pending, actions: Seq<EngineAction>) -> EngineTurn {
        EngineTurn { next: LibMpvHandler { pending, ..self }, actions }
    }

    /// The event loop with `position` noted as the position of the entry that
    /// is playing.
    pub open spec fn at(self, position: i64) -> LibMpvHandler {
        LibMpvHandler {
            playlist: PlaylistState { playing_position: position, ..self.playlist },
            ..self
        }
    }

    /// The turn that ends the loop on a failure: every subscriber is told to
    /// quit before the failure is handed up.
    pub open spec fn fails(self, error: SonicTunesError) -> EngineTurn {
        self.goes(
            Pending::Stopped,
            seq![
                EngineAction::Publish(LibMpvEventMessage::Quit),
                EngineAction::Stop(Err(error)),
            ],
        )
    }

    /// The turn that begins the end of the session: every subscriber is told
    /// to quit, and the engine is told to.
    pub open spec fn quits(self) -> EngineTurn {
        self.goes(
            Pending::Quitting,
            seq![
                EngineAction::Publish(LibMpvEventMessage::Quit),
                EngineAction::Ask(EngineRequest::Quit),
            ],
        )
    }

    /// What a report of the engine leads to while nothing is awaited: the
    /// event that it stands for is published, after the engine has been asked
    /// for what the event is to hold. Every playlist position that the engine
    /// reports is noted and published. A file that was played to its end calls
    /// for the next track; the playlist position is not touched.
    pub open spec fn on_signal(self, signal: EngineSignal) -> EngineTurn {
        match signal {
            EngineSignal::StartFile => self.goes(
                Pending::Idle,
                seq![EngineAction::Publish(LibMpvEventMessage::TrackStarting)],
            ),
            EngineSignal::PlaybackRestart => self.goes(
                Pending::RestartPause,
                seq![EngineAction::Ask(EngineRequest::ReadPause)],
            ),
            EngineSignal::PauseChanged(paused) => self.goes(
                Pending::Idle,
                seq![EngineAction::Publish(LibMpvEventMessage::TransportState(paused))],
            ),
            EngineSignal::VolumeChanged(volume) => self.goes(
                Pending::Idle,
                seq![EngineAction::Publish(LibMpvEventMessage::VolumeChanged(volume))],
            ),
            EngineSignal::DurationChanged(duration) => self.goes(
                Pending::Idle,
                seq![EngineAction::Publish(LibMpvEventMessage::DurationChanged(duration))],
            ),
            EngineSignal::PlaylistPositionChanged(position) => self.at(position).goes(
                Pending::Idle,
                seq![EngineAction::Publish(LibMpvEventMessage::PlaylistPositionChanged(position))],
            ),
            EngineSignal::Seek => self.goes(
                Pending::SeekPosition,
                seq![EngineAction::Ask(EngineRequest::ReadTimePosition)],
            ),
            EngineSignal::FileLoaded => self.goes(
                Pending::TrackReads,
                seq![EngineAction::Ask(EngineRequest::ReadTrack)],
            ),
            EngineSignal::EndFile(reason) => if reason == END_OF_FILE {
                self.goes(Pending::EndFileTrack, seq![EngineAction::FetchTrack])
            } else {
                self.stays()
            },
            EngineSignal::Other => self.stays(),
        }
    }

    /// What a command leads to while nothing is awaited.
    pub open spec fn on_command(self, command: LibMpvMessage) -> EngineTurn {
        match command {
            LibMpvMessage::Quit => self.quits(),
            LibMpvMessage::AdjustVolume(delta) => self.goes(
                Pending::VolumeRead(delta),
                seq![EngineAction::Ask(EngineRequest::ReadVolume)],
            ),
            LibMpvMessage::SetVolume(volume) => self.goes(
                Pending::Effect,
                seq![EngineAction::Ask(EngineRequest::SetVolume(volume))],
            ),
            LibMpvMessage::SeekRelative(offset) => self.goes(
                Pending::Effect,
                seq![EngineAction::Ask(EngineRequest::SeekRelative(offset))],
            ),
            LibMpvMessage::SeekAbsolute(position) => self.goes(
                Pending::Effect,
                seq![EngineAction::Ask(EngineRequest::SeekAbsolute(position))],
            ),
            LibMpvMessage::Resume => self.goes(
                Pending::Effect,
                seq![EngineAction::Ask(EngineRequest::SetPause(false))],
            ),
            LibMpvMessage::Pause => self.goes(
                Pending::Effect,
                seq![EngineAction::Ask(EngineRequest::SetPause(true))],
            ),
            LibMpvMessage::TogglePause => self.goes(
                Pending::Effect,
                seq![EngineAction::Ask(EngineRequest::TogglePause)],
            ),
            LibMpvMessage::PlayNext => if self.playlist.ignore_next_until_loaded {
                self.stays()
            } else {
                self.goes(
                    Pending::NextStep,
                    seq![EngineAction::Ask(EngineRequest::PlaylistNext { force: false })],
                )
            },
            LibMpvMessage::PlayPrevious => self.goes(
                Pending::PreviousStep,
                seq![EngineAction::Ask(EngineRequest::PlaylistPrevious)],
            ),
        }
    }

    /// What a failure of the engine leads to. That a step in the playlist
    /// cannot be taken is no failure: without a next entry the playlist is
    /// looked at, and without an entry before, the track starts again. Any
    /// other failure ends the loop.
    pub open spec fn on_fault(self, fault: EngineFault) -> EngineTurn {
        if self.pending == Pending::NextStep && fault == EngineFault::Raw(ADVANCE_UNAVAILABLE) {
            self.goes(
                Pending::NextPosition,
                seq![EngineAction::Ask(EngineRequest::ReadPlaylistPosition)],
            )
        } else if self.pending == Pending::PreviousStep && fault == EngineFault::Raw(
            ADVANCE_UNAVAILABLE,
        ) {
            self.goes(Pending::Effect, seq![EngineAction::Ask(EngineRequest::SeekAbsolute(0))])
        } else {
            self.fails(SonicTunesError::EngineFault(fault))
        }
    }

    /// What an answer of the engine leads to where it is no failure.
    pub open spec fn on_value(self, reply: EngineReply) -> EngineTurn {
        let forced = seq![EngineAction::Ask(EngineRequest::PlaylistNext { force: true })];
        match (self.pending, reply) {
            (Pending::RestartPause, EngineReply::Flag(paused)) => self.goes(
                Pending::Idle,
                seq![EngineAction::Publish(LibMpvEventMessage::TransportState(paused))],
            ),
            (Pending::SeekPosition, EngineReply::Millis(position)) => self.goes(
                Pending::Idle,
                seq![EngineAction::Publish(LibMpvEventMessage::PositionChanged(position))],
            ),
            (Pending::TrackReads, EngineReply::Track(reads)) => match spec_track_loaded(reads) {
                Ok(data) => EngineTurn {
                    next: LibMpvHandler {
                        playlist: PlaylistState {
                            ignore_next_until_loaded: false,
                            ..self.playlist
                        },
                        pending: Pending::Idle,
                    },
                    actions: seq![EngineAction::Publish(LibMpvEventMessage::TrackLoaded(data))],
                },
                Err(fault) => self.fails(SonicTunesError::EngineFault(fault)),
            },
            (Pending::Effect, EngineReply::Done) => self.goes(Pending::Idle, Seq::empty()),
            (Pending::VolumeRead(delta), EngineReply::Number(volume)) => self.goes(
                Pending::Effect,
                seq![
                    EngineAction::Ask(
                        EngineRequest::SetVolume(spec_adjusted_volume(volume, delta)),
                    ),
                ],
            ),
            (Pending::NextStep, EngineReply::Done) => self.goes(Pending::Idle, Seq::empty()),
            (Pending::NextPosition, EngineReply::Number(position)) => if position == -1 {
                self.at(position).goes(Pending::Idle, Seq::empty())
            } else {
                self.at(position).goes(
                    Pending::NextCount(position),
                    seq![EngineAction::Ask(EngineRequest::ReadPlaylistCount)],
                )
            },
            (Pending::NextCount(position), EngineReply::Number(count)) => if position == count
                - 1 {
                self.goes(Pending::NextTrack, seq![EngineAction::FetchTrack])
            } else {
                self.goes(Pending::Effect, forced)
            },
            (Pending::NextAppend, EngineReply::Done) => self.goes(Pending::Effect, forced),
            (Pending::PreviousStep, EngineReply::Done) => self.goes(Pending::Idle, Seq::empty()),
            _ => self.fails(SonicTunesError::EngineFault(EngineFault::Unexpected)),
        }
    }

    /// What an answer of the engine leads to.
    pub open spec fn on_reply(self, reply: EngineReply) -> EngineTurn {
        match self.pending {
            Pending::Idle => self.stays(),
            Pending::EndFileTrack => self.stays(),
            Pending::NextTrack => self.stays(),
            Pending::Stopped => self.stays(),
            Pending::Quitting => self.goes(
                Pending::Stopped,
                seq![
                    EngineAction::Stop(
                        match reply {
                            EngineReply::Failed(fault) => Err(SonicTunesError::EngineFault(fault)),
                            _ => Ok(()),
                        },
                    ),
                ],
            ),
            _ => match reply {
                EngineReply::Failed(fault) => self.on_fault(fault),
                _ => self.on_value(reply),
            },
        }
    }

    /// What the continuation policy's answer leads to: the track is appended,
    /// once; without a track the loop ends.
    pub open spec fn on_continuation(self, address: Option<String>) -> EngineTurn {
        if self.pending == Pending::EndFileTrack || self.pending == Pending::NextTrack {
            match address {
                Some(url) => self.goes(
                    if self.pending == Pending::EndFileTrack {
                        Pending::Effect
                    } else {
                        Pending::NextAppend
                    },
                    seq![EngineAction::Ask(EngineRequest::LoadFile(url))],
                ),
                None => self.fails(SonicTunesError::CatalogUnavailable),
            }
        } else {
            self.stays()
        }
    }

    /// What one turn of the event loop leads to. A signal or a command is
    /// taken up only while nothing is awaited. A closed channel counts as a
    /// command to quit.
    pub open spec fn spec_run(self, input: EngineInput) -> EngineTurn {
        match input {
            EngineInput::Signal(signal) => if self.pending == Pending::Idle {
                self.on_signal(signal)
            } else {
                self.stays()
            },
            EngineInput::Command(command) => if self.pending == Pending::Idle {
                self.on_command(command)
            } else {
                self.stays()
            },
            EngineInput::Reply(reply) => self.on_reply(reply),
            EngineInput::Continuation(address) => self.on_continuation(address),
            EngineInput::ChannelClosed => if self.pending == Pending::Quitting || self.pending
                == Pending::Stopped {
                self.stays()
            } else {
                self.quits()
            },
        }
    }
}

impl LibMpvHandler {
    /// Asks for `actions` and waits for `pending`.
    fn go(&mut self, pending: Pending, actions: Vec<EngineAction>) -> (r: Vec<EngineAction>)
        ensures
            *final(self) == old(self).goes(pending, actions@).next,
            r@ == old(self).goes(pending, actions@).actions,
    {
        self.pending = pending;
        actions
    }

    /// Ends the loop on a failure.
    fn fail(&mut self, error: SonicTunesError) -> (r: Vec<EngineAction>)
        ensures
            *final(self) == old(self).fails(error).next,
            r@ == old(self).fails(error).actions,
    {
        self.go(
            Pending::Stopped,
            vec![EngineAction::Publish(LibMpvEventMessage::Quit), EngineAction::Stop(Err(error))],
        )
    }

    /// Begins the end of the session.
    fn quit(&mut self) -> (r: Vec<EngineAction>)
        ensures
            *final(self) == old(self).quits().next,
            r@ == old(self).quits().actions,
    {
        self.go(
            Pending::Quitting,
            vec![
                EngineAction::Publish(LibMpvEventMessage::Quit),
                EngineAction::Ask(EngineRequest::Quit),
            ],
        )
    }

    /// Publishes `event` and waits for the next signal or command.
    fn publish(&mut self, event: LibMpvEventMessage) -> (r: Vec<EngineAction>)
        ensures
            *final(self) == old(self).goes(Pending::Idle, seq![EngineAction::Publish(event)]).next,
            r@ == seq![EngineAction::Publish(event)],
    {
        self.go(Pending::Idle, vec![EngineAction::Publish(event)])
    }

    /// Puts `request` to the engine and waits for `pending`.
    fn ask(&mut self, pending: Pending, request: EngineRequest) -> (r: Vec<EngineAction>)
        ensures
            *final(self) == old(self).goes(pending, seq![EngineAction::Ask(request)]).next,
            r@ == seq![EngineAction::Ask(request)],
    {
        self.go(pending, vec![EngineAction::Ask(request)])
    }

    /// Takes up a report of the engine.
    fn take_signal(&mut self, signal: EngineSignal) -> (r: Vec<EngineAction>)
        ensures
            *final(self) == old(self).on_signal(signal).next,
            r@ == old(self).on_signal(signal).actions,
    {
        match signal {
            EngineSignal::StartFile => self.publish(LibMpvEventMessage::TrackStarting),
            EngineSignal::PlaybackRestart => self.ask(
                Pending::RestartPause,
                EngineRequest::ReadPause,
            ),
            EngineSignal::PauseChanged(paused) => self.publish(
                LibMpvEventMessage::TransportState(paused),
            ),
            EngineSignal::VolumeChanged(volume) => self.publish(
                LibMpvEventMessage::VolumeChanged(volume),
            ),
            EngineSignal::DurationChanged(duration) => self.publish(
                LibMpvEventMessage::DurationChanged(duration),
            ),
            EngineSignal::PlaylistPositionChanged(position) => {
                self.playlist.playing_position = position;
                self.publish(LibMpvEventMessage::PlaylistPositionChanged(position))
            },
            EngineSignal::Seek => self.ask(Pending::SeekPosition, EngineRequest::ReadTimePosition),
            EngineSignal::FileLoaded => self.ask(Pending::TrackReads, EngineRequest::ReadTrack),
            EngineSignal::EndFile(reason) => {
                if reason == END_OF_FILE {
                    self.go(Pending::EndFileTrack, vec![EngineAction::FetchTrack])
                } else {
                    Vec::new()
                }
            },
            EngineSignal::Other => Vec::new(),
        }
    }

    /// Takes up a command.
    fn take_command(&mut self, command: LibMpvMessage) -> (r: Vec<EngineAction>)
        ensures
            *final(self) == old(self).on_command(command).next,
            r@ == old(self).on_command(command).actions,
    {
        match command {
            LibMpvMessage::Quit => self.quit(),
            LibMpvMessage::AdjustVolume(delta) => self.ask(
                Pending::VolumeRead(delta),
                EngineRequest::ReadVolume,
            ),
            LibMpvMessage::SetVolume(volume) => self.ask(
                Pending::Effect,
                EngineRequest::SetVolume(volume),
            ),
            LibMpvMessage::SeekRelative(offset) => self.ask(
                Pending::Effect,
                EngineRequest::SeekRelative(offset),
            ),
            LibMpvMessage::SeekAbsolute(position) => self.ask(
                Pending::Effect,
                EngineRequest::SeekAbsolute(position),
            ),
            LibMpvMessage::Resume => self.ask(Pending::Effect, EngineRequest::SetPause(false)),
            LibMpvMessage::Pause => self.ask(Pending::Effect, EngineRequest::SetPause(true)),
            LibMpvMessage::TogglePause => self.ask(Pending::Effect, EngineRequest::TogglePause),
            LibMpvMessage::PlayNext => {
                if self.playlist.ignore_next_until_loaded {
                    Vec::new()
                } else {
                    self.ask(Pending::NextStep, EngineRequest::PlaylistNext { force: false })
                }
            },
            LibMpvMessage::PlayPrevious => self.ask(
                Pending::PreviousStep,
                EngineRequest::PlaylistPrevious,
            ),
        }
    }

    /// Takes up a failure of the engine.
    fn take_fault(&mut self, fault: EngineFault) -> (r: Vec<EngineAction>)
        ensures
            *final(self) == old(self).on_fault(fault).next,
            r@ == old(self).on_fault(fault).actions,
    {
        let unavailable = fault == EngineFault::Raw(ADVANCE_UNAVAILABLE);
        if self.pending == Pending::NextStep && unavailable {
            self.ask(Pending::NextPosition, EngineRequest::ReadPlaylistPosition)
        } else if self.pending == Pending::PreviousStep && unavailable {
            self.ask(Pending::Effect, EngineRequest::SeekAbsolute(0))
        } else {
            self.fail(SonicTunesError::EngineFault(fault))
        }
    }

    /// Takes up an answer of the engine that is no failure.
    fn take_value(&mut self, reply: EngineReply) -> (r: Vec<EngineAction>)
        ensures
            *final(self) == old(self).on_value(reply).next,
            r@ == old(self).on_value(reply).actions,
    {
        match (self.pending, reply) {
            (Pending::RestartPause, EngineReply::Flag(paused)) => self.publish(
                LibMpvEventMessage::TransportState(paused),
            ),
            (Pending::SeekPosition, EngineReply::Millis(position)) => self.publish(
                LibMpvEventMessage::PositionChanged(position),
            ),
            (Pending::TrackReads, EngineReply::Track(reads)) => match track_loaded(reads) {
                Ok(data) => {
                    self.playlist.ignore_next_until_loaded = false;
                    self.publish(LibMpvEventMessage::TrackLoaded(data))
                },
                Err(fault) => self.fail(SonicTunesError::EngineFault(fault)),
            },
            (Pending::Effect, EngineReply::Done) => self.go(Pending::Idle, Vec::new()),
            (Pending::VolumeRead(delta), EngineReply::Number(volume)) => self.ask(
                Pending::Effect,
                EngineRequest::SetVolume(adjusted_volume(volume, delta)),
            ),
            (Pending::NextStep, EngineReply::Done) => self.go(Pending::Idle, Vec::new()),
            (Pending::NextPosition, EngineReply::Number(position)) => {
                self.playlist.playing_position = position;
                if position == -1 {
                    self.go(Pending::Idle, Vec::new())
                } else {
                    self.ask(Pending::NextCount(position), EngineRequest::ReadPlaylistCount)
                }
            },
            (Pending::NextCount(position), EngineReply::Number(count)) => {
                if count > i64::MIN && position == count - 1 {
                    self.go(Pending::NextTrack, vec![EngineAction::FetchTrack])
                } else {
                    self.ask(Pending::Effect, EngineRequest::PlaylistNext { force: true })
                }
            },
            (Pending::NextAppend, EngineReply::Done) => self.ask(
                Pending::Effect,
                EngineRequest::PlaylistNext { force: true },
            ),
            (Pending::PreviousStep, EngineReply::Done) => self.go(Pending::Idle, Vec::new()),
            _ => self.fail(SonicTunesError::EngineFault(EngineFault::Unexpected)),
        }
    }

    /// Takes up an answer of the engine.
    fn take_reply(&mut self, reply: EngineReply) -> (r: Vec<EngineAction>)
        ensures
            *final(self) == old(self).on_reply(reply).next,
            r@ == old(self).on_reply(reply).actions,
    {
        match self.pending {
            Pending::Idle => Vec::new(),
            Pending::EndFileTrack => Vec::new(),
            Pending::NextTrack => Vec::new(),
            Pending::Stopped => Vec::new(),
            Pending::Quitting => {
                let result = match reply {
                    EngineReply::Failed(fault) => Err(SonicTunesError::EngineFault(fault)),
                    _ => Ok(()),
                };
                self.go(Pending::Stopped, vec![EngineAction::Stop(result)])
            },
            _ => match reply {
                EngineReply::Failed(fault) => self.take_fault(fault),
                _ => self.take_value(reply),
            },
        }
    }

    /// Takes up the continuation policy's answer.
    fn take_continuation(&mut self, address: Option<String>) -> (r: Vec<EngineAction>)
        ensures
            *final(self) == old(self).on_continuation(address).next,
            r@ == old(self).on_continuation(address).actions,
    {
        let at_end = self.pending == Pending::EndFileTrack;
        if at_end || self.pending == Pending::NextTrack {
            match address {
                Some(url) => self.ask(
                    if at_end {
                        Pending::Effect
                    } else {
                        Pending::NextAppend
                    },
                    EngineRequest::LoadFile(url),
                ),
                None => self.fail(SonicTunesError::CatalogUnavailable),
            }
        } else {
            Vec::new()
        }
    }

    /// Runs one turn of the event loop: takes what came in and says what is to
    /// be done, in order. The caller carries that out and hands back, in a
    /// turn of its own, each reply of the engine and each answer of the
    /// continuation policy, until a turn asks for neither; the loop has ended
    /// when a turn says so.
    pub fn run(&mut self, input: EngineInput) -> (actions: Vec<EngineAction>)
        ensures
            *final(self) == old(self).spec_run(input).next,
            actions@ == old(self).spec_run(input).actions,
    {
        match input {
            EngineInput::Signal(signal) => {
                if self.pending == Pending::Idle {
                    self.take_signal(signal)
                } else {
                    Vec::new()
                }
            },
            EngineInput::Command(command) => {
                if self.pending == Pending::Idle {
                    self.take_command(command)
                } else {
                    Vec::new()
                }
            },
            EngineInput::Reply(reply) => self.take_reply(reply),
            EngineInput::Continuation(address) => self.take_continuation(address),
            EngineInput::ChannelClosed => {
                if self.pending == Pending::Quitting || self.pending == Pending::Stopped {
                    Vec::new()
                } else {
                    self.quit()
                }
            },
        }
    }
}

impl Pending {
    /// Whether nothing is awaited: the event loop takes up the next signal or
    /// command, or has ended.
    pub open spec fn rests(self) -> bool {
        self == Pending::Idle || self == Pending::Stopped
    }

    /// Whether the next track is awaited.
    pub open spec fn awaits_track(self) -> bool {
        self == Pending::EndFileTrack || self == Pending::NextTrack
    }

    /// Whether an answer of the engine is awaited.
    pub open spec fn awaits_reply(self) -> bool {
        !self.rests() && !self.awaits_track()
    }

    /// Whether `input` is what is awaited.
    pub open spec fn answered_by(self, input: EngineInput) -> bool {
        (self.awaits_reply() && input is Reply) || (self.awaits_track() && input is Continuation)
    }

    /// The most turns that can follow before nothing is awaited.
    pub open spec fn turns_left(self) -> nat {
        match self {
            Pending::Idle => 0,
            Pending::Stopped => 0,
            Pending::RestartPause => 1,
            Pending::SeekPosition => 1,
            Pending::TrackReads => 1,
            Pending::Effect => 1,
            Pending::Quitting => 1,
            Pending::VolumeRead(_) => 2,
            Pending::EndFileTrack => 2,
            Pending::NextAppend => 2,
            Pending::PreviousStep => 2,
            Pending::NextTrack => 3,
            Pending::NextCount(_) => 4,
            Pending::NextPosition => 5,
            Pending::NextStep => 6,
        }
    }
}

/// How many requests to the engine `actions` hold.
pub open spec fn asks_in(actions: Seq<EngineAction>) -> nat
    decreases actions.len(),
{
    if actions.len() == 0 {
        0
    } else {
        asks_in(actions.drop_last()) + if actions.last() is Ask {
            1nat
        } else {
            0nat
        }
    }
}

/// How many calls for the next track `actions` hold.
pub open spec fn fetches_in(actions: Seq<EngineAction>) -> nat
    decreases actions.len(),
{
    if actions.len() == 0 {
        0
    } else {
        fetches_in(actions.drop_last()) + if actions.last() is FetchTrack {
            1nat
        } else {
            0nat
        }
    }
}

/// Whether `inputs` are an exchange with the event loop `handler`: each of
/// them, in its turn, is what the event loop awaits.
pub open spec fn is_exchange(handler: LibMpvHandler, inputs: Seq<EngineInput>) -> bool
    decreases inputs.len(),
{
    inputs.len() == 0 || (handler.pending.answered_by(inputs.first()) && is_exchange(
        handler.spec_run(inputs.first()).next,
        inputs.drop_first(),
    ))
}

/// Whether the event loop `handler` takes `input` up: a signal or a command
/// while nothing is awaited, what is awaited, and a closed channel unless the
/// session is ending already.
pub open spec fn takes_up(handler: LibMpvHandler, input: EngineInput) -> bool {
    ||| handler.pending == Pending::Idle && (input is Signal || input is Command)
    ||| handler.pending.answered_by(input)
    ||| input is ChannelClosed && handler.pending != Pending::Quitting && handler.pending
        != Pending::Stopped
}

/// A turn that takes its input up asks for exactly what the event loop awaits
/// after it: one answer of the engine, or the next track, or nothing. Whoever
/// puts each request to the engine and runs the continuation policy each time
/// it is called for, and hands back what they give before anything else, thus
/// hands the event loop what it awaits, and no signal and no command in
/// between.
pub proof fn law_turn_asks_for_what_it_awaits(handler: LibMpvHandler, input: EngineInput)
    requires
        takes_up(handler, input),
    ensures
        ({
            let turn = handler.spec_run(input);
            &&& asks_in(turn.actions) == (if turn.next.pending.awaits_reply() {
                1nat
            } else {
                0nat
            })
            &&& fetches_in(turn.actions) == (if turn.next.pending.awaits_track() {
                1nat
            } else {
                0nat
            })
        }),
{
    reveal_with_fuel(asks_in, 3);
    reveal_with_fuel(fetches_in, 3);
    let turn = handler.spec_run(input);
    assert(turn.actions.len() <= 2);
    if turn.actions.len() == 1 {
        assert(turn.actions.drop_last() == Seq::<EngineAction>::empty());
    }
    if turn.actions.len() == 2 {
        assert(turn.actions.drop_last().len() == 1);
        assert(turn.actions.drop_last().drop_last() == Seq::<EngineAction>::empty());
    }
}

/// An input that is not taken up is passed over: the turn changes nothing
/// and asks for nothing.
pub proof fn law_what_is_not_taken_up_is_passed_over(handler: LibMpvHandler, input: EngineInput)
    requires
        !takes_up(handler, input),
    ensures
        handler.spec_run(input) == handler.stays(),
{
}

/// A turn on what is awaited brings the end of the exchange nearer.
pub proof fn law_answer_brings_rest_nearer(handler: LibMpvHandler, input: EngineInput)
    requires
        handler.pending.answered_by(input),
    ensures
        handler.spec_run(input).next.pending.turns_left() < handler.pending.turns_left(),
        handler.pending.turns_left() <= 6,
{
}

/// Every exchange ends: after at most six turns on what is awaited, and never
/// more than the state of the event loop gives it left, nothing is awaited
/// any more, so that the next signal or command is taken up, unless the loop
/// has ended. No signal and no command is handed over in the middle of an
/// exchange by a caller that finishes each exchange first.
pub proof fn law_exchange_ends(handler: LibMpvHandler, inputs: Seq<EngineInput>)
    requires
        is_exchange(handler, inputs),
    ensures
        inputs.len() <= handler.pending.turns_left(),
        handler.pending.turns_left() <= 6,
        handler.pending.rests() <==> handler.pending.turns_left() == 0,
    decreases inputs.len(),
{
    if inputs.len() > 0 {
        law_answer_brings_rest_nearer(handler, inputs.first());
        law_exchange_ends(handler.spec_run(inputs.first()).next, inputs.drop_first());
    }
}

/// The properties of the engine whose changes the event loop is to be told of.
#[derive(Debug, Clone, Copy, PartialEq, Eq, Structural)]
pub enum ObservedProperty {
    Pause,
    Volume,
    Duration,
    PlaylistPosition,
}

impl LibMpvHandler {
    /// The event loop at the start of a session, with what the engine is to be
    /// asked before anything is played: to take the volume `volume` and to
    /// switch the video output off. Until the first track has been loaded a
    /// command to play the next track is passed over.
    pub fn initialize_libmpv(volume: i64) -> (r: (Self, Vec<EngineRequest>))
        ensures
            r.0.playlist.ignore_next_until_loaded,
            r.0.playlist.playing_position == -1,
            r.0.pending == Pending::Idle,
            r.1@ == seq![EngineRequest::SetVolume(volume), EngineRequest::DisableVideo],
    {
        (
            LibMpvHandler {
                playlist: PlaylistState { playing_position: -1, ignore_next_until_loaded: true },
                pending: Pending::Idle,
            },
            vec![EngineRequest::SetVolume(volume), EngineRequest::DisableVideo],
        )
    }

    /// The request that appends the file at the address `file` to the
    /// playlist.
    pub fn load_file(&self, file: String) -> (r: EngineRequest)
        ensures
            r == EngineRequest::LoadFile(file),
    {
        EngineRequest::LoadFile(file)
    }

    /// The properties that the handle on which the event loop polls is to
    /// observe.
    pub fn create_client(&self) -> (r: Vec<ObservedProperty>)
        ensures
            r@ == seq![
                ObservedProperty::Pause,
                ObservedProperty::Volume,
                ObservedProperty::Duration,
                ObservedProperty::PlaylistPosition,
            ],
    {
        vec![
            ObservedProperty::Pause,
            ObservedProperty::Volume,
            ObservedProperty::Duration,
            ObservedProperty::PlaylistPosition,
        ]
    }
}

/// A change of the volume by `delta` leads from the volume `volume` to their
/// sum, kept within 0 and 200: the event loop reads the volume, and writes
/// that.
pub proof fn law_volume_clamp(handler: LibMpvHandler, delta: i64, volume: i64)
    requires
        handler.pending == Pending::Idle,
    ensures
        ({
            let asked = handler.spec_run(EngineInput::Command(LibMpvMessage::AdjustVolume(delta)));
            let written = asked.next.spec_run(EngineInput::Reply(EngineReply::Number(volume)));
            let target = if volume + delta < 0 {
                0
            } else if volume + delta > 200 {
                200
            } else {
                volume + delta
            };
            &&& asked.actions == seq![EngineAction::Ask(EngineRequest::ReadVolume)]
            &&& written.actions == seq![EngineAction::Ask(EngineRequest::SetVolume(target as i64))]
            &&& 0 <= target <= 200
        }),
{
}

/// A failure of the engine either is the one that a step in the playlist
/// runs into at the playlist's end, which the event loop recovers from in
/// silence, or it ends the loop: then every subscriber is told to quit first,
/// and the failure is handed up.
pub proof fn law_fault_is_recovered_or_fatal(handler: LibMpvHandler, fault: EngineFault)
    requires
        handler.pending != Pending::Idle,
        handler.pending != Pending::EndFileTrack,
        handler.pending != Pending::NextTrack,
        handler.pending != Pending::Quitting,
        handler.pending != Pending::Stopped,
    ensures
        ({
            let turn = handler.spec_run(EngineInput::Reply(EngineReply::Failed(fault)));
            let recovered = fault == EngineFault::Raw(ADVANCE_UNAVAILABLE) && (handler.pending
                == Pending::NextStep || handler.pending == Pending::PreviousStep);
            &&& recovered ==> turn.actions.len() == 1 && turn.actions[0] is Ask
            &&& !recovered ==> turn.actions == seq![
                EngineAction::Publish(LibMpvEventMessage::Quit),
                EngineAction::Stop(Err(SonicTunesError::EngineFault(fault))),
            ] && turn.next.pending == Pending::Stopped
        }),
{
}

/// A turn calls for the next track at most once, and only in two cases: a
/// file was played to its end, or a step to the next entry could not be taken
/// at the last entry of the playlist.
pub proof fn law_continuation_cause(handler: LibMpvHandler, input: EngineInput)
    ensures
        ({
            let turn = handler.spec_run(input);
            let at_end = handler.pending == Pending::Idle && input == EngineInput::Signal(
                EngineSignal::EndFile(END_OF_FILE),
            );
            let at_last = handler.pending matches Pending::NextCount(position)
                && input matches EngineInput::Reply(EngineReply::Number(count)) && position
                == count - 1;
            &&& at_end || at_last ==> turn.actions == seq![EngineAction::FetchTrack]
            &&& !(at_end || at_last) ==> forall|i: int|
                0 <= i < turn.actions.len() ==> turn.actions[i] != EngineAction::FetchTrack
        }),
{
}

/// After a file has played to its end the next track is fetched once and
/// appended once: the answer of the continuation policy is taken up one time,
/// a second answer is passed over, and when the engine has appended the track
/// the event loop is where it was.
pub proof fn law_continuation_once(handler: LibMpvHandler, address: String, again: Option<String>)
    requires
        handler.pending == Pending::Idle,
    ensures
        ({
            let ended = handler.spec_run(EngineInput::Signal(EngineSignal::EndFile(END_OF_FILE)));
            let fetched = ended.next.spec_run(EngineInput::Continuation(Some(address)));
            let appended = fetched.next.spec_run(EngineInput::Reply(EngineReply::Done));
            &&& ended.actions == seq![EngineAction::FetchTrack]
            &&& fetched.actions == seq![EngineAction::Ask(EngineRequest::LoadFile(address))]
            &&& fetched.next.spec_run(EngineInput::Continuation(again)) == fetched.next.stays()
            &&& appended.actions.len() == 0
            &&& appended.next == handler
            &&& appended.next.spec_run(EngineInput::Continuation(again)) == handler.stays()
        }),
{
}

/// While no track has been loaded a command to play the next track changes
/// nothing and asks for nothing. Afterwards it asks for a step to the next
/// entry, and does not force it.
pub proof fn law_play_next_guard(handler: LibMpvHandler)
    requires
        handler.pending == Pending::Idle,
    ensures
        ({
            let turn = handler.spec_run(EngineInput::Command(LibMpvMessage::PlayNext));
            &&& handler.playlist.ignore_next_until_loaded ==> turn == handler.stays()
            &&& !handler.playlist.ignore_next_until_loaded ==> turn.actions == seq![
                EngineAction::Ask(EngineRequest::PlaylistNext { force: false }),
            ]
        }),
{
}

/// The guard against playing the next track is lifted by the turn that
/// publishes a loaded track, by no other, and is never set again.
pub proof fn law_guard_lifts_once(handler: LibMpvHandler, input: EngineInput)
    ensures
        ({
            let turn = handler.spec_run(input);
            let loaded = turn.actions.len() == 1 && turn.actions[0] matches EngineAction::Publish(
                LibMpvEventMessage::TrackLoaded(_),
            );
            let guarded = handler.playlist.ignore_next_until_loaded;
            let guarded_after = turn.next.playlist.ignore_next_until_loaded;
            &&& !guarded ==> !guarded_after
            &&& guarded ==> (guarded_after <==> !loaded)
            &&& loaded ==> !guarded_after
        }),
{
}

} // verus!
