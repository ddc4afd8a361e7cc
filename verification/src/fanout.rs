//! The fan-out of events: every subscriber gets every event that the engine
//! event loop publishes, in the order in which they were published, in a queue
//! of its own.

use crate::libmpv_handler::{
    spec_track_loaded, EngineAction, EngineInput, EngineReply, EngineSignal, FileLoadedData,
    LibMpvEventMessage, LibMpvHandler, LibMpvMessage, Pending,
};
use crate::mc_os_interface::MCOSInterface;
use crate::tui::{TuiCommand, TuiView};
use vstd::prelude::*;

verus! {

/// The events that `actions` publish, in order.
pub open spec fn published(actions: Seq<EngineAction>) -> Seq<LibMpvEventMessage>
    decreases actions.len(),
{
    if actions.len() == 0 {
        Seq::empty()
    } else {
        let before = published(actions.drop_last());
        match actions.last() {
            EngineAction::Publish(event) => before.push(event),
            _ => before,
        }
    }
}

/// A copy of `event`.
pub fn copy_event(event: &LibMpvEventMessage) -> (copy: LibMpvEventMessage)
    ensures
        copy == *event,
{
    match event {
        LibMpvEventMessage::TrackStarting => LibMpvEventMessage::TrackStarting,
        LibMpvEventMessage::TransportState(paused) => LibMpvEventMessage::TransportState(*paused),
        LibMpvEventMessage::TrackLoaded(data) => LibMpvEventMessage::TrackLoaded(
            FileLoadedData {
                media_title: data.media_title.clone(),
                artist: match &data.artist {
                    Some(a) => Some(a.clone()),
                    None => None,
                },
                album: match &data.album {
                    Some(a) => Some(a.clone()),
                    None => None,
                },
                duration: data.duration,
                volume: data.volume,
            },
        ),
        LibMpvEventMessage::VolumeChanged(volume) => LibMpvEventMessage::VolumeChanged(*volume),
        LibMpvEventMessage::PositionChanged(position) => LibMpvEventMessage::PositionChanged(
            *position,
        ),
        LibMpvEventMessage::DurationChanged(duration) => LibMpvEventMessage::DurationChanged(
            *duration,
        ),
        LibMpvEventMessage::PlaylistPositionChanged(position) => {
            LibMpvEventMessage::PlaylistPositionChanged(*position)
        },
        LibMpvEventMessage::Quit => LibMpvEventMessage::Quit,
    }
}

/// The events that `actions` publish, in order, copied once.
pub fn events_of(actions: &Vec<EngineAction>) -> (events: Vec<LibMpvEventMessage>)
    ensures
        events@ == published(actions@),
{
    let mut events: Vec<LibMpvEventMessage> = Vec::new();
    let mut i: usize = 0;
    assert(actions@.take(0) == Seq::<EngineAction>::empty());
    while i < actions.len()
        invariant
            i <= actions.len(),
            events@ == published(actions@.take(i as int)),
        decreases actions.len() - i,
    {
        assert(actions@.take(i + 1).drop_last() == actions@.take(i as int));
        assert(actions@.take(i + 1).last() == actions[i as int]);
        match &actions[i] {
            EngineAction::Publish(event) => {
                events.push(copy_event(event));
            },
            _ => {},
        }
        i += 1;
    }
    assert(actions@.take(actions.len() as int) == actions@);
    events
}

/// What each of `subscribers` subscribers is to be sent for `actions`: its own
/// copy of every event that they publish, all of them and in their order.
pub fn fan_out(actions: &Vec<EngineAction>, subscribers: usize) -> (deliveries: Vec<
    Vec<LibMpvEventMessage>,
>)
    ensures
        deliveries.len() == subscribers,
        forall|i: int| 0 <= i < subscribers ==> (#[trigger] deliveries[i])@ == published(actions@),
{
    let mut deliveries: Vec<Vec<LibMpvEventMessage>> = Vec::new();
    let mut i: usize = 0;
    while i < subscribers
        invariant
            i <= subscribers,
            deliveries.len() == i,
            forall|k: int| 0 <= k < i ==> (#[trigger] deliveries[k])@ == published(actions@),
        decreases subscribers - i,
    {
        deliveries.push(events_of(actions));
        i += 1;
    }
    deliveries
}

/// What a look into a subscriber's queue gave.
#[derive(Debug, Clone, PartialEq, Eq)]
pub enum Delivery {
    /// The next event.
    Event(LibMpvEventMessage),
    /// Nothing: the queue is empty for now.
    Nothing,
    /// Nothing, and nothing will come: the queue is closed.
    Closed,
}

/// The event that a look into a subscriber's queue stands for, if any: a
/// closed queue counts as the event that ends the session.
pub fn observed(delivery: Delivery) -> (event: Option<LibMpvEventMessage>)
    ensures
        event == match delivery {
            Delivery::Event(e) => Some(e),
            Delivery::Nothing => None,
            Delivery::Closed => Some(LibMpvEventMessage::Quit),
        },
{
    match delivery {
        Delivery::Event(e) => Some(e),
        Delivery::Nothing => None,
        Delivery::Closed => Some(LibMpvEventMessage::Quit),
    }
}

/// The session as the actors' queues show it: the state of the engine event
/// loop, the events published so far, and for each subscriber the events it
/// has taken and those still waiting in its queue.
pub struct Session {
    pub engine: LibMpvHandler,
    pub produced: Seq<LibMpvEventMessage>,
    pub taken: Seq<Seq<LibMpvEventMessage>>,
    pub waiting: Seq<Seq<LibMpvEventMessage>>,
}

/// How often the event that ends the session occurs among `events`.
pub open spec fn quits_in(events: Seq<LibMpvEventMessage>) -> nat
    decreases events.len(),
{
    if events.len() == 0 {
        0
    } else {
        quits_in(events.drop_last()) + if events.last() == LibMpvEventMessage::Quit {
            1nat
        } else {
            0nat
        }
    }
}

impl Session {
    /// A session with `subscribers` subscribers in which nothing has happened.
    pub open spec fn start(engine: LibMpvHandler, subscribers: nat) -> Session {
        Session {
            engine,
            produced: Seq::empty(),
            taken: Seq::new(subscribers, |i: int| Seq::empty()),
            waiting: Seq::new(subscribers, |i: int| Seq::empty()),
        }
    }

    /// Whether the engine event loop has begun to end the session.
    pub open spec fn ending(self) -> bool {
        self.engine.pending == Pending::Quitting || self.engine.pending == Pending::Stopped
    }

    /// Whether the subscriber `i` has stopped: it has taken the event that
    /// ends the session.
    pub open spec fn stopped(self, i: int) -> bool {
        self.taken[i].len() > 0 && self.taken[i].last() == LibMpvEventMessage::Quit
    }

    /// The session after a turn of the engine event loop on `input`: what the
    /// turn publishes goes to the end of every subscriber's queue.
    pub open spec fn engine_turn(self, input: EngineInput) -> Session {
        let turn = self.engine.spec_run(input);
        let events = published(turn.actions);
        Session {
            engine: turn.next,
            produced: self.produced + events,
            taken: self.taken,
            waiting: Seq::new(self.waiting.len(), |i: int| self.waiting[i] + events),
        }
    }

    /// Whether the subscriber `i` can take an event: it has not stopped and
    /// its queue is not empty.
    pub open spec fn can_take(self, i: int) -> bool {
        0 <= i < self.waiting.len() && !self.stopped(i) && self.waiting[i].len() > 0
    }

    /// The session after the subscriber `i` has taken the first event of its
    /// queue.
    pub open spec fn subscriber_takes(self, i: int) -> Session {
        Session {
            taken: self.taken.update(i, self.taken[i].push(self.waiting[i].first())),
            waiting: self.waiting.update(i, self.waiting[i].drop_first()),
            ..self
        }
    }

    /// What holds at every moment of a session. Each subscriber's events, those
    /// taken and then those waiting, are the events published, all of them and
    /// in their order. The event that ends the session is published at most
    /// once, as the last event, and exactly when the event loop has begun to
    /// end the session.
    pub open spec fn consistent(self) -> bool {
        &&& self.taken.len() == self.waiting.len()
        &&& forall|i: int|
            0 <= i < self.waiting.len() ==> self.taken[i] + #[trigger] self.waiting[i]
                == self.produced
        &&& quits_in(self.produced) == (if self.ending() {
            1nat
        } else {
            0nat
        })
        &&& self.ending() ==> self.produced.len() > 0 && self.produced.last()
            == LibMpvEventMessage::Quit
    }
}

/// A turn of the event loop publishes at most one event. It publishes the
/// event that ends the session exactly when it begins to end the session, and
/// once it has begun to, it publishes nothing.
pub proof fn lemma_turn_publishes(engine: LibMpvHandler, input: EngineInput)
    ensures
        ({
            let turn = engine.spec_run(input);
            let events = published(turn.actions);
            let was_ending = engine.pending == Pending::Quitting || engine.pending
                == Pending::Stopped;
            let is_ending = turn.next.pending == Pending::Quitting || turn.next.pending
                == Pending::Stopped;
            &&& events.len() <= 1
            &&& was_ending ==> is_ending && events.len() == 0
            &&& !was_ending && is_ending ==> events == seq![LibMpvEventMessage::Quit]
            &&& !is_ending ==> quits_in(events) == 0
        }),
{
    reveal_with_fuel(published, 3);
    reveal_with_fuel(quits_in, 2);
    let turn = engine.spec_run(input);
    let events = published(turn.actions);
    assert(turn.actions.len() <= 2);
    if turn.actions.len() == 1 {
        assert(turn.actions.drop_last() == Seq::<EngineAction>::empty());
    }
    if turn.actions.len() == 2 {
        assert(turn.actions.drop_last().drop_last() == Seq::<EngineAction>::empty());
        assert(turn.actions.drop_last().len() == 1);
    }
    if events.len() == 1 {
        assert(events.drop_last() == Seq::<LibMpvEventMessage>::empty());
    }
}

/// The count over two runs of events is the sum of the counts.
proof fn lemma_quits_in_add(a: Seq<LibMpvEventMessage>, b: Seq<LibMpvEventMessage>)
    ensures
        quits_in(a + b) == quits_in(a) + quits_in(b),
    decreases b.len(),
{
    if b.len() == 0 {
        assert(a + b == a);
    } else {
        assert((a + b).drop_last() == a + b.drop_last());
        lemma_quits_in_add(a, b.drop_last());
    }
}

/// The session is consistent when a session starts.
pub proof fn law_session_starts_well(engine: LibMpvHandler, subscribers: nat)
    requires
        engine.pending == Pending::Idle,
    ensures
        Session::start(engine, subscribers).consistent(),
{
    let s = Session::start(engine, subscribers);
    assert forall|i: int| 0 <= i < s.waiting.len() implies s.taken[i] + #[trigger] s.waiting[i]
        == s.produced by {
        assert(s.taken[i] + s.waiting[i] =~= s.produced);
    }
}

/// A turn of the event loop keeps the session consistent, whatever it is handed.
pub proof fn law_engine_turn_keeps_consistent(session: Session, input: EngineInput)
    requires
        session.consistent(),
    ensures
        session.engine_turn(input).consistent(),
{
    let after = session.engine_turn(input);
    let events = published(session.engine.spec_run(input).actions);
    lemma_turn_publishes(session.engine, input);
    lemma_quits_in_add(session.produced, events);
    reveal_with_fuel(quits_in, 2);
    if events.len() == 1 {
        assert(events.drop_last() == Seq::<LibMpvEventMessage>::empty());
    }
    assert forall|i: int| 0 <= i < after.waiting.len() implies after.taken[i]
        + #[trigger] after.waiting[i] == after.produced by {
        assert(session.taken[i] + session.waiting[i] == session.produced);
        assert(after.taken[i] + after.waiting[i] =~= after.produced);
    }
    if events.len() == 0 {
        assert(after.produced == session.produced);
    }
}

/// A subscriber that takes an event keeps the session consistent: what one subscriber
/// takes, and when, changes nothing for another.
pub proof fn law_taking_keeps_consistent(session: Session, i: int)
    requires
        session.consistent(),
        session.can_take(i),
    ensures
        session.subscriber_takes(i).consistent(),
        forall|k: int|
            0 <= k < session.waiting.len() && k != i ==> session.subscriber_takes(i).waiting[k]
                == session.waiting[k] && session.subscriber_takes(i).taken[k] == session.taken[k],
{
    let after = session.subscriber_takes(i);
    assert forall|k: int| 0 <= k < after.waiting.len() implies after.taken[k]
        + #[trigger] after.waiting[k] == after.produced by {
        assert(session.taken[k] + session.waiting[k] == session.produced);
        if k == i {
            assert(after.taken[k] + after.waiting[k] =~= session.taken[k] + session.waiting[k]);
        }
    }
}

/// Once the event loop has begun to end the session, each subscriber either
/// has stopped, having taken the event that ends the session once and as the
/// last thing it took, or still has that event waiting, once and at the end
/// of its queue, so that it takes it, and stops, when it has taken what waits
/// before it.
pub proof fn law_shutdown_fan_in(session: Session, i: int)
    requires
        session.consistent(),
        session.ending(),
        0 <= i < session.waiting.len(),
    ensures
        quits_in(session.taken[i]) + quits_in(session.waiting[i]) == 1,
        session.stopped(i) ==> session.waiting[i].len() == 0 && quits_in(session.taken[i]) == 1,
        !session.stopped(i) ==> session.waiting[i].len() > 0 && session.waiting[i].last()
            == LibMpvEventMessage::Quit && quits_in(session.waiting[i]) == 1 && quits_in(
            session.taken[i],
        ) == 0,
{
    let taken = session.taken[i];
    let waiting = session.waiting[i];
    assert(taken + waiting == session.produced);
    lemma_quits_in_add(taken, waiting);
    if waiting.len() > 0 {
        assert(waiting.last() == session.produced.last());
        assert(quits_in(waiting) >= 1);
        if taken.len() > 0 && taken.last() == LibMpvEventMessage::Quit {
            assert(quits_in(taken) >= 1);
        }
    } else {
        assert(taken + waiting == taken);
    }
}

/// Every report of the engine that stands for an event is published as that
/// one event, neither merged with another nor passed over: at once where the
/// report holds what the event is to hold, and else when the engine has given
/// what was read for it. A file that ended and a report that stands for no
/// event publish nothing.
pub proof fn law_signals_are_published_once(
    handler: LibMpvHandler,
    signal: EngineSignal,
    reply: EngineReply,
)
    requires
        handler.pending == Pending::Idle,
    ensures
        ({
            let turn = handler.spec_run(EngineInput::Signal(signal));
            let now = published(turn.actions);
            let later = published(turn.next.spec_run(EngineInput::Reply(reply)).actions);
            match signal {
                EngineSignal::StartFile => now == seq![LibMpvEventMessage::TrackStarting],
                EngineSignal::PauseChanged(paused) => now == seq![
                    LibMpvEventMessage::TransportState(paused),
                ],
                EngineSignal::VolumeChanged(volume) => now == seq![
                    LibMpvEventMessage::VolumeChanged(volume),
                ],
                EngineSignal::DurationChanged(duration) => now == seq![
                    LibMpvEventMessage::DurationChanged(duration),
                ],
                EngineSignal::PlaylistPositionChanged(position) => now == seq![
                    LibMpvEventMessage::PlaylistPositionChanged(position),
                ],
                EngineSignal::PlaybackRestart => now.len() == 0 && (reply matches EngineReply::Flag(
                    paused,
                ) ==> later == seq![LibMpvEventMessage::TransportState(paused)]),
                EngineSignal::Seek => now.len() == 0 && (reply matches EngineReply::Millis(
                    position,
                ) ==> later == seq![LibMpvEventMessage::PositionChanged(position)]),
                EngineSignal::FileLoaded => now.len() == 0 && (reply matches EngineReply::Track(
                    reads,
                ) ==> (spec_track_loaded(reads) matches Ok(data) ==> later == seq![
                    LibMpvEventMessage::TrackLoaded(data),
                ])),
                EngineSignal::EndFile(_) => now.len() == 0,
                EngineSignal::Other => now.len() == 0,
            }
        }),
{
    reveal_with_fuel(published, 3);
    let turn = handler.spec_run(EngineInput::Signal(signal));
    let answered = turn.next.spec_run(EngineInput::Reply(reply));
    assert(turn.actions.len() <= 1);
    if turn.actions.len() == 1 {
        assert(turn.actions.drop_last() == Seq::<EngineAction>::empty());
    }
    if answered.actions.len() == 1 {
        assert(answered.actions.drop_last() == Seq::<EngineAction>::empty());
    }
}

/// A command to quit, from whichever actor, makes the event loop begin to end
/// the session once it takes the command up, and so does a closed channel at
/// any moment before. The terminal actor, for its part, sends that command
/// when it is told to quit, and stops; and every subscriber stops when it
/// takes the event that ends the session, and at no other event.
pub proof fn law_quit_is_passed_on(
    session: Session,
    tui: TuiView,
    media: MCOSInterface,
    event: LibMpvEventMessage,
    now: u64,
)
    requires
        session.consistent(),
    ensures
        session.engine.pending == Pending::Idle ==> session.engine_turn(
            EngineInput::Command(LibMpvMessage::Quit),
        ).ending(),
        session.engine_turn(EngineInput::ChannelClosed).ending(),
        tui.execute(TuiCommand::Quit, now).messages == seq![LibMpvMessage::Quit],
        tui.execute(TuiCommand::Quit, now).quit,
        tui.on_event(event, now).quit == (event == LibMpvEventMessage::Quit),
        media.on_event(event, now).quit == (event == LibMpvEventMessage::Quit),
{
}

} // verus!
