//! The playback clock that each subscriber keeps for itself.

use crate::libmpv_handler::LibMpvEventMessage;
use vstd::prelude::*;

verus! {

/// A subscriber's estimate of the playback state, drawn from the events it has
/// seen. Times are in milliseconds. The position runs on between events: it is
/// anchored at `anchor_position` at the moment `anchor_wallclock`, and the two
/// are always written together.
#[derive(Debug, Clone, PartialEq, Eq)]
pub struct PlaybackProjection {
    pub anchor_wallclock: u64,
    pub anchor_position: i64,
    pub paused: bool,
    pub ready: bool,
    pub duration: i64,
    pub volume: i64,
    pub title: String,
    pub artist: Option<String>,
}

/// `n`, or the nearest bound of the 64-bit signed integers.
pub open spec fn saturated(n: int) -> i64 {
    if n < i64::MIN {
        i64::MIN
    } else if n > i64::MAX {
        i64::MAX
    } else {
        n as i64
    }
}

impl PlaybackProjection {
    /// The time that has passed since the anchor was set; none where the clock
    /// reads earlier than the anchor.
    pub open spec fn elapsed(self, now: u64) -> int {
        if now >= self.anchor_wallclock {
            now - self.anchor_wallclock
        } else {
            0
        }
    }

    /// The position that the anchor gives, before any clamping.
    pub open spec fn raw_position(self, now: u64) -> int {
        if self.paused {
            self.anchor_position as int
        } else {
            self.anchor_position + self.elapsed(now)
        }
    }

    /// The position to display at the time `now`: 0 until playback is ready,
    /// else the anchored position, kept within 0 and the duration.
    pub open spec fn spec_position(self, now: u64) -> int {
        let raw = self.raw_position(now);
        if !self.ready || raw < 0 || self.duration < 0 {
            0
        } else if raw > self.duration {
            self.duration as int
        } else {
            raw
        }
    }

    /// The projection after the event `event`, seen at the time `now`.
    pub open spec fn spec_apply(self, event: LibMpvEventMessage, now: u64) -> PlaybackProjection {
        match event {
            LibMpvEventMessage::TrackStarting => PlaybackProjection { ready: false, ..self },
            LibMpvEventMessage::TransportState(paused) => PlaybackProjection {
                anchor_wallclock: now,
                anchor_position: if paused {
                    saturated(self.raw_position(now))
                } else {
                    self.anchor_position
                },
                paused,
                ready: true,
                ..self
            },
            LibMpvEventMessage::TrackLoaded(data) => PlaybackProjection {
                anchor_wallclock: now,
                anchor_position: 0,
                duration: data.duration,
                volume: data.volume,
                title: data.media_title,
                artist: data.artist,
                ..self
            },
            LibMpvEventMessage::VolumeChanged(volume) => PlaybackProjection { volume, ..self },
            LibMpvEventMessage::PositionChanged(position) => PlaybackProjection {
                anchor_wallclock: now,
                anchor_position: position,
                ..self
            },
            LibMpvEventMessage::DurationChanged(duration) => PlaybackProjection {
                duration,
                ..self
            },
            LibMpvEventMessage::PlaylistPositionChanged(_) => self,
            LibMpvEventMessage::Quit => self,
        }
    }

    /// The projection of a session in which nothing has happened yet.
    pub fn new(now: u64) -> (p: Self)
        ensures
            p.anchor_wallclock == now,
            p.anchor_position == 0,
            p.paused,
            !p.ready,
            p.duration == 0,
            p.volume == 0,
            p.title@.len() == 0,
            p.artist is None,
    {
        PlaybackProjection {
            anchor_wallclock: now,
            anchor_position: 0,
            paused: true,
            ready: false,
            duration: 0,
            volume: 0,
            title: String::new(),
            artist: None,
        }
    }

    /// The anchored position at the time `now`, kept within the 64-bit signed
    /// integers.
    fn anchored(&self, now: u64) -> (p: i64)
        ensures
            p == saturated(self.raw_position(now)),
    {
        if self.paused || now < self.anchor_wallclock {
            self.anchor_position
        } else {
            let raw: i128 = self.anchor_position as i128 + (now - self.anchor_wallclock) as i128;
            if raw > i64::MAX as i128 {
                i64::MAX
            } else {
                raw as i64
            }
        }
    }

    /// The position to display at the time `now`.
    pub fn position(&self, now: u64) -> (p: i64)
        ensures
            p == self.spec_position(now),
    {
        let raw = self.anchored(now);
        if !self.ready || raw < 0 || self.duration < 0 {
            0
        } else if raw > self.duration {
            self.duration
        } else {
            raw
        }
    }

    /// Takes in the event `event`, seen at the time `now`.
    pub fn apply(&mut self, event: LibMpvEventMessage, now: u64)
        ensures
            *final(self) == old(self).spec_apply(event, now),
    {
        match event {
            LibMpvEventMessage::TrackStarting => {
                self.ready = false;
            },
            LibMpvEventMessage::TransportState(paused) => {
                let position = if paused {
                    self.anchored(now)
                } else {
                    self.anchor_position
                };
                self.anchor_wallclock = now;
                self.anchor_position = position;
                self.paused = paused;
                self.ready = true;
            },
            LibMpvEventMessage::TrackLoaded(data) => {
                self.anchor_wallclock = now;
                self.anchor_position = 0;
                self.duration = data.duration;
                self.volume = data.volume;
                self.title = data.media_title;
                self.artist = data.artist;
            },
            LibMpvEventMessage::VolumeChanged(volume) => {
                self.volume = volume;
            },
            LibMpvEventMessage::PositionChanged(position) => {
                self.anchor_wallclock = now;
                self.anchor_position = position;
            },
            LibMpvEventMessage::DurationChanged(duration) => {
                self.duration = duration;
            },
            LibMpvEventMessage::PlaylistPositionChanged(_) => {},
            LibMpvEventMessage::Quit => {},
        }
    }
}

/// The anchor's two parts are written together: an event that sets the
/// transport state or the position, and a loaded track, anchor the position at
/// the moment of the event; no other event touches either part. A pause
/// anchors the position where playback has got to, so that the display does
/// not jump.
pub proof fn law_anchor_is_written_whole(
    p: PlaybackProjection,
    event: LibMpvEventMessage,
    now: u64,
)
    ensures
        ({
            let next = p.spec_apply(event, now);
            let anchors = event is TransportState || event is TrackLoaded
                || event is PositionChanged;
            &&& anchors ==> next.anchor_wallclock == now
            &&& !anchors ==> next.anchor_wallclock == p.anchor_wallclock && next.anchor_position
                == p.anchor_position
            &&& event == LibMpvEventMessage::TransportState(true) ==> next.raw_position(now)
                == saturated(p.raw_position(now))
        }),
{
}

/// While playback is paused the displayed position stands still, and while it
/// runs the displayed position never goes back.
pub proof fn law_position_follows_the_clock(p: PlaybackProjection, now: u64, later: u64)
    requires
        now <= later,
    ensures
        p.paused ==> p.spec_position(later) == p.spec_position(now),
        p.spec_position(now) <= p.spec_position(later),
        0 <= p.spec_position(now),
        p.duration >= 0 ==> p.spec_position(now) <= p.duration,
{
}

/// A track is loaded, playback starts at the time `started`, runs for `run`
/// milliseconds and is paused. Just before the pause the displayed position is
/// `run`, or the track's duration where that is shorter (a negative duration
/// counts as none), whatever the
/// projection held before; and it stays there at every later time.
pub proof fn law_projection_continuity(
    before: PlaybackProjection,
    data: crate::libmpv_handler::FileLoadedData,
    loaded: u64,
    started: u64,
    run: u64,
    later: u64,
)
    requires
        started + run <= u64::MAX,
        started + run <= later,
    ensures
        ({
            let paused_at = (started + run) as u64;
            let loaded = before.spec_apply(LibMpvEventMessage::TrackLoaded(data), loaded);
            let playing = loaded.spec_apply(LibMpvEventMessage::TransportState(false), started);
            let frozen = playing.spec_apply(LibMpvEventMessage::TransportState(true), paused_at);
            let shown = if data.duration < 0 {
                0
            } else if run <= data.duration {
                run as int
            } else {
                data.duration as int
            };
            &&& playing.spec_position(paused_at) == shown
            &&& frozen.spec_position(paused_at) == shown
            &&& frozen.spec_position(later) == shown
        }),
{
}

} // verus!
