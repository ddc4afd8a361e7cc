//! The media-session actor: it turns what the operating system's media
//! controls ask for into commands, and events into what the media session is
//! to show.

use crate::libmpv_handler::{LibMpvEventMessage, LibMpvMessage};
use crate::projection::PlaybackProjection;
use vstd::prelude::*;

verus! {

/// What the media session can be told of playback.
#[derive(Debug)]
pub enum MCOSInterfaceSignals {
    Pause,
    Resume,
    PlayNext,
    PlayPrev,
    UpdateMetadataTitle(String),
    End,
}

/// The direction of a seek that the media controls ask for.
#[derive(Debug, Clone, Copy, PartialEq, Eq, Structural)]
pub enum SeekDirection {
    Forward,
    Backward,
}

/// What the media controls of the operating system ask for. Times are in
/// milliseconds, the volume is in percent.
#[derive(Debug, Clone, Copy, PartialEq, Eq, Structural)]
pub enum MediaControlEvent {
    Play,
    Pause,
    Toggle,
    Next,
    Previous,
    Stop,
    Seek(SeekDirection),
    SeekBy(SeekDirection, u64),
    SetPosition(u64),
    SetVolume(i64),
    OpenUri,
    Raise,
    Quit,
}

/// What the media session is to show.
#[derive(Debug, Clone, PartialEq, Eq)]
pub enum SessionUpdate {
    /// Whether playback is paused or running.
    Playback { paused: bool },
    /// The track's title and, where it is known, its duration in milliseconds.
    Metadata { title: String, duration: Option<u64> },
    /// The volume in percent.
    Volume(i64),
}

/// The state of the media-session actor.
#[derive(Debug, Clone, PartialEq, Eq)]
pub struct MCOSInterface {
    pub projection: PlaybackProjection,
}

/// What a turn of the media-session actor leads to: the state after it, what
/// the media session is to show, in order, and whether the actor is to stop.
pub struct SessionTurn {
    pub next: MCOSInterface,
    pub updates: Seq<SessionUpdate>,
    pub quit: bool,
}

/// A number of milliseconds as an offset, the largest offset where it is
/// beyond that.
pub open spec fn spec_offset(millis: u64) -> i64 {
    if millis > i64::MAX {
        i64::MAX
    } else {
        millis as i64
    }
}

/// The command that a request of the media controls stands for, if any.
pub open spec fn spec_translate(event: MediaControlEvent) -> Option<LibMpvMessage> {
    match event {
        MediaControlEvent::Play => Some(LibMpvMessage::Resume),
        MediaControlEvent::Pause => Some(LibMpvMessage::Pause),
        MediaControlEvent::Next => Some(LibMpvMessage::PlayNext),
        MediaControlEvent::Previous => Some(LibMpvMessage::PlayPrevious),
        MediaControlEvent::Toggle => Some(LibMpvMessage::TogglePause),
        MediaControlEvent::SetVolume(percent) => Some(LibMpvMessage::SetVolume(percent)),
        MediaControlEvent::SeekBy(direction, millis) => Some(
            LibMpvMessage::SeekRelative(
                match direction {
                    SeekDirection::Forward => spec_offset(millis),
                    SeekDirection::Backward => (-spec_offset(millis)) as i64,
                },
            ),
        ),
        MediaControlEvent::SetPosition(millis) => Some(
            LibMpvMessage::SeekAbsolute(spec_offset(millis)),
        ),
        _ => None,
    }
}

/// A number of milliseconds as an offset.
fn offset(millis: u64) -> (r: i64)
    ensures
        r == spec_offset(millis),
{
    if millis > i64::MAX as u64 {
        i64::MAX
    } else {
        millis as i64
    }
}

impl MCOSInterface {
    /// What the event `event`, seen at the time `now`, leads to. Every event
    /// goes to the projection. The start of a track and a loaded track show
    /// playback as running, a change of the transport state shows that state;
    /// a loaded track shows its title, and a duration shows the title with it,
    /// a negative duration counting as none at all.
    pub open spec fn on_event(self, event: LibMpvEventMessage, now: u64) -> SessionTurn {
        let next = MCOSInterface { projection: self.projection.spec_apply(event, now) };
        let quiet = SessionTurn { next, updates: Seq::empty(), quit: false };
        match event {
            LibMpvEventMessage::TrackStarting => SessionTurn {
                updates: seq![SessionUpdate::Playback { paused: false }],
                ..quiet
            },
            LibMpvEventMessage::TransportState(paused) => SessionTurn {
                updates: seq![SessionUpdate::Playback { paused }],
                ..quiet
            },
            LibMpvEventMessage::TrackLoaded(data) => SessionTurn {
                updates: seq![
                    SessionUpdate::Playback { paused: false },
                    SessionUpdate::Metadata { title: data.media_title, duration: None },
                ],
                ..quiet
            },
            LibMpvEventMessage::VolumeChanged(volume) => SessionTurn {
                updates: seq![SessionUpdate::Volume(volume)],
                ..quiet
            },
            LibMpvEventMessage::DurationChanged(duration) => SessionTurn {
                updates: seq![
                    SessionUpdate::Metadata {
                        title: self.projection.title,
                        duration: Some(
                            if duration < 0 {
                                0
                            } else {
                                duration as u64
                            },
                        ),
                    },
                ],
                ..quiet
            },
            LibMpvEventMessage::Quit => SessionTurn { quit: true, ..quiet },
            _ => quiet,
        }
    }

    /// The media-session actor at the start of a session, at the time `now`,
    /// with what the media session is to show first: playback as running.
    pub fn new(now: u64) -> (r: (Self, Vec<SessionUpdate>))
        ensures
            r.0.projection.anchor_wallclock == now,
            r.0.projection.anchor_position == 0,
            r.0.projection.paused,
            !r.0.projection.ready,
            r.0.projection.duration == 0,
            r.0.projection.volume == 0,
            r.0.projection.title@.len() == 0,
            r.0.projection.artist is None,
            r.1@ == seq![SessionUpdate::Playback { paused: false }],
    {
        (
            MCOSInterface { projection: PlaybackProjection::new(now) },
            vec![SessionUpdate::Playback { paused: false }],
        )
    }

    /// Turns a request of the media controls into the command to send to the
    /// engine event loop, if it stands for one.
    pub fn translate(&self, event: MediaControlEvent) -> (r: Option<LibMpvMessage>)
        ensures
            r == spec_translate(event),
    {
        match event {
            MediaControlEvent::Play => Some(LibMpvMessage::Resume),
            MediaControlEvent::Pause => Some(LibMpvMessage::Pause),
            MediaControlEvent::Next => Some(LibMpvMessage::PlayNext),
            MediaControlEvent::Previous => Some(LibMpvMessage::PlayPrevious),
            MediaControlEvent::Toggle => Some(LibMpvMessage::TogglePause),
            MediaControlEvent::SetVolume(percent) => Some(LibMpvMessage::SetVolume(percent)),
            MediaControlEvent::SeekBy(direction, millis) => {
                let by = offset(millis);
                Some(
                    LibMpvMessage::SeekRelative(
                        match direction {
                            SeekDirection::Forward => by,
                            SeekDirection::Backward => -by,
                        },
                    ),
                )
            },
            MediaControlEvent::SetPosition(millis) => Some(
                LibMpvMessage::SeekAbsolute(offset(millis)),
            ),
            _ => None,
        }
    }

    /// Takes the event `event`, seen at the time `now`: gives what the media
    /// session is to show, in order, and says whether the actor is to stop.
    pub fn handle_signals(&mut self, event: LibMpvEventMessage, now: u64) -> (r: (
        Vec<SessionUpdate>,
        bool,
    ))
        ensures
            *final(self) == old(self).on_event(event, now).next,
            r.0@ == old(self).on_event(event, now).updates,
            r.1 == old(self).on_event(event, now).quit,
    {
        let mut updates: Vec<SessionUpdate> = Vec::new();
        let mut quit = false;
        match &event {
            LibMpvEventMessage::TrackStarting => {
                updates.push(SessionUpdate::Playback { paused: false });
            },
            LibMpvEventMessage::TransportState(paused) => {
                updates.push(SessionUpdate::Playback { paused: *paused });
            },
            LibMpvEventMessage::TrackLoaded(data) => {
                updates.push(SessionUpdate::Playback { paused: false });
                updates.push(
                    SessionUpdate::Metadata { title: data.media_title.clone(), duration: None },
                );
            },
            LibMpvEventMessage::VolumeChanged(volume) => {
                updates.push(SessionUpdate::Volume(*volume));
            },
            LibMpvEventMessage::DurationChanged(duration) => {
                let shown: u64 = if *duration < 0 {
                    0
                } else {
                    *duration as u64
                };
                updates.push(
                    SessionUpdate::Metadata {
                        title: self.projection.title.clone(),
                        duration: Some(shown),
                    },
                );
            },
            LibMpvEventMessage::Quit => {
                quit = true;
            },
            _ => {},
        }
        self.projection.apply(event, now);
        (updates, quit)
    }
}

} // verus!
