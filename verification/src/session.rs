//! The connection session: the two pumps of one relayed connection.
//!
//! A session pairs the connection that was accepted from a client with the
//! connection that was opened to the destination, and runs one pump in each
//! direction. The two pumps share nothing: an event of one direction never
//! touches the other. The session is resolved as soon as either pump ends,
//! cleanly or not; that is reported once, together with a last sign of life.
//! The pump of the other direction is left to wind down by itself.

use vstd::prelude::*;
use crate::pump::IoOp;
use crate::pump::Pump;
use crate::pump::PumpCommand;
use crate::pump::PumpCommandView;
use crate::pump::PumpEvent;
use crate::pump::PumpEventView;
use crate::pump::PumpPhase;
use crate::pump::bytes_handed_on;
use crate::pump::bytes_taken;
use crate::pump::lemma_relays_exactly;
use crate::pump::phase_after;
use crate::pump::pump_step;
use crate::pump::reply_to_last;

verus! {

/// One of the two directions of a relayed connection.
#[derive(Clone, Copy, Debug, PartialEq, Eq, Structural)]
pub enum Direction {
    /// From the client's read half to the destination's write half.
    ToDestination,
    /// From the destination's read half to the client's write half.
    ToClient,
}

/// The direction that is not `direction`.
pub open spec fn opposite(direction: Direction) -> Direction {
    match direction {
        Direction::ToDestination => Direction::ToClient,
        Direction::ToClient => Direction::ToDestination,
    }
}

/// The answer of a session to one event of one of its directions.
#[derive(Clone, Debug, PartialEq, Eq)]
pub struct SessionReply {
    /// What to do next in the direction of the event.
    pub command: PumpCommand,
    /// Whether to pass a sign of life on to the idle watchdog.
    pub signal: bool,
    /// Whether this event resolved the session: the command then stops the
    /// first pump to end, and its outcome is the session's, to be reported
    /// with the direction of the event.
    pub resolves: bool,
}

/// The mathematical value of a [`SessionReply`].
pub struct SessionReplyView {
    pub command: PumpCommandView,
    pub signal: bool,
    pub resolves: bool,
}

impl View for SessionReply {
    type V = SessionReplyView;

    open spec fn view(&self) -> SessionReplyView {
        SessionReplyView { command: self.command@, signal: self.signal, resolves: self.resolves }
    }
}

/// The mathematical value of a [`Session`].
pub struct SessionView {
    /// Where the pump from the client to the destination stands.
    pub to_destination: PumpPhase,
    /// Where the pump from the destination to the client stands.
    pub to_client: PumpPhase,
    /// The buffer size of both pumps.
    pub capacity: usize,
    /// Whether a pump has ended.
    pub resolved: bool,
}

impl SessionView {
    /// Where the pump of `direction` stands.
    pub open spec fn phase(self, direction: Direction) -> PumpPhase {
        match direction {
            Direction::ToDestination => self.to_destination,
            Direction::ToClient => self.to_client,
        }
    }

    /// This session with the pump of `direction` in `phase`.
    pub open spec fn with_phase(self, direction: Direction, phase: PumpPhase) -> SessionView {
        match direction {
            Direction::ToDestination => SessionView { to_destination: phase, ..self },
            Direction::ToClient => SessionView { to_client: phase, ..self },
        }
    }
}

/// A session together with the reply that led to it.
pub struct SessionStep {
    pub state: SessionView,
    pub reply: SessionReplyView,
}

/// A session whose pumps have a buffer of `capacity` bytes each and have not
/// been started.
pub open spec fn fresh_session(capacity: usize) -> SessionView {
    SessionView {
        to_destination: PumpPhase::Created,
        to_client: PumpPhase::Created,
        capacity,
        resolved: false,
    }
}

/// The transition relation of a session: what `event`, reported for
/// `direction`, does to `session`.
///
/// The event goes to the pump of its direction and to no other. The first
/// stop of a pump resolves the session and is a sign of life; a later stop
/// is passed on and nothing more.
pub open spec fn session_step(
    session: SessionView,
    direction: Direction,
    event: PumpEventView,
) -> SessionStep {
    let step = pump_step(session.phase(direction), session.capacity, event);
    let stops = step.reply.command is Stop;
    let resolves = stops && !session.resolved;
    SessionStep {
        state: SessionView {
            resolved: session.resolved || stops,
            ..session.with_phase(direction, step.phase)
        },
        reply: SessionReplyView {
            command: step.reply.command,
            signal: step.reply.signal || resolves,
            resolves,
        },
    }
}

/// The two pumps of one relayed connection, as a state machine.
pub struct Session {
    to_destination: Pump,
    to_client: Pump,
    resolved: bool,
}

impl View for Session {
    type V = SessionView;

    closed spec fn view(&self) -> SessionView {
        SessionView {
            to_destination: self.to_destination.phase(),
            to_client: self.to_client.phase(),
            capacity: self.to_destination.capacity(),
            resolved: self.resolved,
        }
    }
}

impl Session {
    /// Both pumps have buffers of one size.
    #[verifier::type_invariant]
    spec fn well_formed(self) -> bool {
        self.to_destination.capacity() == self.to_client.capacity()
    }

    /// Builds the session of one relayed connection, with a buffer of
    /// `capacity` bytes for each direction. Any positive size will do.
    pub fn new(capacity: usize) -> (session: Option<Session>)
        ensures
            session is Some <==> capacity > 0,
            session matches Some(s) ==> s@ == fresh_session(capacity),
    {
        match (Pump::new(capacity), Pump::new(capacity)) {
            (Some(to_destination), Some(to_client)) => Some(
                Session { to_destination, to_client, resolved: false },
            ),
            _ => None,
        }
    }

    /// Where the pump of `direction` stands.
    pub fn phase(&self, direction: Direction) -> (phase: PumpPhase)
        ensures
            phase == self@.phase(direction),
    {
        match direction {
            Direction::ToDestination => self.to_destination.phase(),
            Direction::ToClient => self.to_client.phase(),
        }
    }

    /// Whether the session has been resolved: whether a pump has ended.
    pub fn is_resolved(&self) -> (resolved: bool)
        ensures
            resolved == self@.resolved,
    {
        self.resolved
    }

    /// Takes note of `event`, reported for `direction`, and says what to do
    /// next in that direction, as [`session_step`] lays down. The pump of
    /// the other direction is left as it is.
    pub fn step(&mut self, direction: Direction, event: PumpEvent) -> (reply: SessionReply)
        ensures
            final(self)@ == session_step(old(self)@, direction, event@).state,
            reply@ == session_step(old(self)@, direction, event@).reply,
            final(self)@.phase(opposite(direction)) == old(self)@.phase(opposite(direction)),
    {
        proof {
            use_type_invariant(&*self);
        }
        let answer = match direction {
            Direction::ToDestination => self.to_destination.step(event),
            Direction::ToClient => self.to_client.step(event),
        };
        let stops = match &answer.command {
            PumpCommand::Stop { .. } => true,
            _ => false,
        };
        let resolves = stops && !self.resolved;
        if stops {
            self.resolved = true;
        }
        SessionReply { command: answer.command, signal: answer.signal || resolves, resolves }
    }
}

/// The session that was built with buffers of `capacity` bytes and then told
/// `events`, one after the other, each for its direction.
pub open spec fn session_after(
    capacity: usize,
    events: Seq<(Direction, PumpEventView)>,
) -> SessionView
    decreases events.len(),
{
    if events.len() == 0 {
        fresh_session(capacity)
    } else {
        session_step(
            session_after(capacity, events.drop_last()),
            events.last().0,
            events.last().1,
        ).state
    }
}

/// The reply of such a session to the last of `events`.
pub open spec fn session_reply_to_last(
    capacity: usize,
    events: Seq<(Direction, PumpEventView)>,
) -> SessionReplyView
    recommends
        events.len() > 0,
{
    session_step(
        session_after(capacity, events.drop_last()),
        events.last().0,
        events.last().1,
    ).reply
}

/// The events of `direction` among `events`, in their order.
pub open spec fn events_of(
    events: Seq<(Direction, PumpEventView)>,
    direction: Direction,
) -> Seq<PumpEventView>
    decreases events.len(),
{
    if events.len() == 0 {
        Seq::empty()
    } else if events.last().0 == direction {
        events_of(events.drop_last(), direction).push(events.last().1)
    } else {
        events_of(events.drop_last(), direction)
    }
}

/// How often the session was resolved in the course of `events`.
pub open spec fn resolutions(capacity: usize, events: Seq<(Direction, PumpEventView)>) -> nat
    decreases events.len(),
{
    if events.len() == 0 {
        0
    } else {
        let earlier = resolutions(capacity, events.drop_last());
        if session_reply_to_last(capacity, events).resolves {
            earlier + 1
        } else {
            earlier
        }
    }
}

/// The two directions of a session do not touch each other. However the
/// events of the two directions are interleaved, and whatever happens in the
/// other direction (an end of stream, a failure, the resolution of the
/// session), each pump stands where a pump of its own would stand that was
/// told the events of its direction alone, and each event is answered with
/// the command that such a pump would give.
pub proof fn lemma_directions_are_independent(
    capacity: usize,
    events: Seq<(Direction, PumpEventView)>,
    direction: Direction,
)
    ensures
        session_after(capacity, events).capacity == capacity,
        session_after(capacity, events).phase(direction) == phase_after(
            capacity,
            events_of(events, direction),
        ),
        events.len() > 0 && events.last().0 == direction ==> session_reply_to_last(
            capacity,
            events,
        ).command == reply_to_last(capacity, events_of(events, direction)).command,
    decreases events.len(),
{
    if events.len() > 0 {
        let before = events.drop_last();
        lemma_directions_are_independent(capacity, before, direction);
        lemma_directions_are_independent(capacity, before, opposite(direction));
        if events.last().0 == direction {
            let own = events_of(events, direction);
            assert(own.drop_last() =~= events_of(before, direction));
            assert(own.last() == events.last().1);
        }
    }
}

/// A session relays exactly what it reads, in both directions: in each
/// direction the bytes that it hands on to be written are the bytes that it
/// took in from the other side, all of them, once, in order and unchanged,
/// whatever happens in the other direction meanwhile.
pub proof fn lemma_session_relays_exactly(
    capacity: usize,
    events: Seq<(Direction, PumpEventView)>,
    direction: Direction,
)
    ensures
        bytes_handed_on(capacity, events_of(events, direction)) == bytes_taken(
            capacity,
            events_of(events, direction),
        ),
{
    lemma_relays_exactly(capacity, events_of(events, direction));
}

/// The end of one direction does not end the other. Once the pump of
/// `direction` has passed an end of stream on and stopped, every event of
/// the other direction is still answered as by a pump of its own, and what
/// was read there is still handed on.
pub proof fn lemma_half_close_leaves_the_other_direction_running(
    session: SessionView,
    direction: Direction,
    event: PumpEventView,
)
    requires
        session.phase(direction) == PumpPhase::Awaiting(IoOp::Shutdown),
    ensures
        ({
            let closed = session_step(session, direction, PumpEventView::Closed);
            let next = session_step(closed.state, opposite(direction), event);
            let alone = pump_step(session.phase(opposite(direction)), session.capacity, event);
            &&& closed.state.phase(direction) == PumpPhase::Finished
            &&& closed.state.phase(opposite(direction)) == session.phase(opposite(direction))
            &&& next.state.phase(opposite(direction)) == alone.phase
            &&& next.reply.command == alone.reply.command
        }),
{
}

/// A session is resolved at most once, by the first of its pumps to end, and
/// it is resolved exactly if a pump has ended.
pub proof fn lemma_resolves_once(capacity: usize, events: Seq<(Direction, PumpEventView)>)
    ensures
        resolutions(capacity, events) <= 1,
        resolutions(capacity, events) == 1 <==> session_after(capacity, events).resolved,
        session_after(capacity, events).resolved <==> {
            ||| session_after(capacity, events).to_destination == PumpPhase::Finished
            ||| session_after(capacity, events).to_client == PumpPhase::Finished
        },
    decreases events.len(),
{
    if events.len() > 0 {
        lemma_resolves_once(capacity, events.drop_last());
    }
}

/// The resolution of a session is a sign of life, and it reports the end of
/// the pump whose event it answers.
pub proof fn lemma_resolution_is_signalled(
    session: SessionView,
    direction: Direction,
    event: PumpEventView,
)
    ensures
        ({
            let step = session_step(session, direction, event);
            step.reply.resolves ==> {
                &&& step.reply.signal
                &&& step.reply.command is Stop
                &&& step.state.phase(direction) == PumpPhase::Finished
                &&& step.state.resolved
                &&& !session.resolved
            }
        }),
{
}

} // verus!
