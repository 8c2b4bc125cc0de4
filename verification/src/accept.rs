//! The accept loop and its idle watchdog.
//!
//! The loop listens on one address. It waits for whichever comes first of
//! three things: an inbound connection, a sign of life from a session, or
//! the end of the idle window. For an inbound connection it has the
//! destination opened and a session started; a destination that cannot be
//! reached is reported and the loop serves on. A sign of life restarts the
//! idle window. When the window runs out the loop stops, and the process
//! with it, whatever sessions are still open.
//!
//! Like the pumps, the loop performs nothing itself: it is told what
//! happened, with the reading of a monotonic clock in milliseconds where
//! time matters, and answers with what to do next.

use vstd::prelude::*;
use crate::timer::IdleTimer;
use crate::timer::deadline_of;
use crate::timer::elapsed_between;
use crate::timer::later_of;
use crate::timer::window_of;
use crate::timer::window_over;

verus! {

/// How many pending connections the listener holds at least.
pub const LISTEN_BACKLOG: u32 = 1024;

/// Why the loop stopped.
#[derive(Clone, Copy, Debug, PartialEq, Eq, Structural)]
pub enum StopReason {
    /// The listen address could not be bound or listened on.
    BindFailed,
    /// Accepting a connection failed.
    AcceptFailed,
    /// Nothing gave a sign of life for the whole idle window of
    /// `timeout_secs` seconds.
    IdleTimeout { timeout_secs: u32 },
}

/// Where the loop stands.
#[derive(Clone, Copy, Debug, PartialEq, Eq, Structural)]
pub enum LoopPhase {
    /// Built, not yet started.
    Created,
    /// Asked to bind and listen; no answer yet.
    Binding,
    /// Waiting for a connection, a sign of life or the end of the idle
    /// window.
    Waiting,
    /// A connection was accepted and the destination is being opened.
    Connecting,
    /// Stopped for good.
    Stopped(StopReason),
}

/// What the driver of the loop reports to it.
#[derive(Clone, Copy, Debug, PartialEq, Eq, Structural)]
pub enum LoopEvent {
    /// The driver is ready to run the loop.
    Started,
    /// The listener is bound and listening.
    Listening { now: u64 },
    /// Binding or listening failed.
    BindFailed,
    /// An inbound connection was accepted.
    Accepted { now: u64 },
    /// Accepting failed.
    AcceptFailed,
    /// The destination was opened for the accepted connection.
    Connected,
    /// The destination could not be opened for the accepted connection.
    ConnectFailed,
    /// A sign of life arrived from a session.
    Activity { now: u64 },
    /// The clock reached the deadline that the loop had given.
    TimerElapsed { now: u64 },
}

/// What the loop asks its driver to do next.
#[derive(Clone, Copy, Debug, PartialEq, Eq, Structural)]
pub enum LoopCommand {
    /// Bind the listen address, with address reuse as given, and listen
    /// with a backlog of `backlog` pending connections.
    Listen { reuse_address: bool, backlog: u32 },
    /// Wait for a connection, a sign of life or the clock reaching
    /// `deadline`.
    Wait { deadline: u64 },
    /// Note the peer of the accepted connection and open the destination.
    Connect,
    /// Start a session for the pair of connections, without waiting for it,
    /// then wait as for `Wait`.
    StartSession { deadline: u64 },
    /// Report that the destination could not be opened, drop the accepted
    /// connection, then wait as for `Wait`.
    ReportConnectFailure { deadline: u64 },
    /// Report `reason` and leave the loop.
    Exit { reason: StopReason },
    /// The event answered nothing that was asked for; nothing changes.
    Nothing,
}

/// The answer of the loop to one event.
#[derive(Clone, Copy, Debug, PartialEq, Eq, Structural)]
pub struct LoopReply {
    /// The next thing to do.
    pub command: LoopCommand,
    /// Whether to send a sign of life of the loop's own to the watchdog.
    pub signal: bool,
}

/// The mathematical value of an [`AcceptLoop`].
pub struct LoopState {
    /// Where the loop stands.
    pub phase: LoopPhase,
    /// The configured idle window in whole seconds.
    pub timeout_secs: u32,
    /// The clock reading of the latest sign of life that was heard.
    pub last_sign: u64,
}

/// A state together with the reply that led to it.
pub struct LoopStep {
    pub state: LoopState,
    pub reply: LoopReply,
}

impl LoopState {
    /// The clock reading at which the idle window runs out.
    pub open spec fn deadline(self) -> u64 {
        deadline_of(self.timeout_secs, self.last_sign) as u64
    }

    /// This state in `phase`.
    pub open spec fn in_phase(self, phase: LoopPhase) -> LoopState {
        LoopState { phase, ..self }
    }

    /// This state after a sign of life at `now`.
    pub open spec fn revived(self, now: u64) -> LoopState {
        LoopState { last_sign: later_of(self.last_sign, now), ..self }
    }

    /// The step to this state that answers with `command` and no signal.
    pub open spec fn answering(self, command: LoopCommand) -> LoopStep {
        LoopStep { state: self, reply: LoopReply { command, signal: false } }
    }

    /// The step to this state that answers with `command` and a signal.
    pub open spec fn signalling(self, command: LoopCommand) -> LoopStep {
        LoopStep { state: self, reply: LoopReply { command, signal: true } }
    }

    /// The step that stops the loop for `reason`.
    pub open spec fn stopping(self, reason: StopReason) -> LoopStep {
        self.in_phase(LoopPhase::Stopped(reason)).answering(LoopCommand::Exit { reason })
    }
}

/// A loop with an idle window of `timeout_secs` seconds that has not been
/// started.
pub open spec fn fresh_loop(timeout_secs: u32) -> LoopState {
    LoopState { phase: LoopPhase::Created, timeout_secs, last_sign: 0 }
}

/// The transition relation of the loop: what `event` does to `state`.
///
/// An accepted connection and a sign of life restart the idle window. The
/// opening of the destination does not, however it ends: where it succeeds a
/// sign of life is sent on its way, where it fails there is none. The end of
/// the window stops the loop exactly if the whole window has passed since the
/// latest sign of life. A failure to bind or to accept stops the loop; a
/// failure to open the destination never does.
pub open spec fn loop_step(state: LoopState, event: LoopEvent) -> LoopStep {
    match (state.phase, event) {
        (LoopPhase::Created, LoopEvent::Started) => state.in_phase(LoopPhase::Binding).answering(
            LoopCommand::Listen { reuse_address: true, backlog: LISTEN_BACKLOG },
        ),
        (LoopPhase::Binding, LoopEvent::Listening { now }) => {
            let next = state.revived(now).in_phase(LoopPhase::Waiting);
            next.answering(LoopCommand::Wait { deadline: next.deadline() })
        },
        (LoopPhase::Binding, LoopEvent::BindFailed) => state.stopping(StopReason::BindFailed),
        (LoopPhase::Waiting, LoopEvent::Accepted { now }) => state.revived(now).in_phase(
            LoopPhase::Connecting,
        ).answering(LoopCommand::Connect),
        (LoopPhase::Waiting, LoopEvent::AcceptFailed) => state.stopping(StopReason::AcceptFailed),
        (LoopPhase::Waiting, LoopEvent::Activity { now }) => {
            let next = state.revived(now);
            next.answering(LoopCommand::Wait { deadline: next.deadline() })
        },
        (LoopPhase::Waiting, LoopEvent::TimerElapsed { now }) => if window_over(
            state.timeout_secs,
            state.last_sign,
            now,
        ) {
            state.stopping(StopReason::IdleTimeout { timeout_secs: state.timeout_secs })
        } else {
            state.answering(LoopCommand::Wait { deadline: state.deadline() })
        },
        (LoopPhase::Connecting, LoopEvent::Connected) => state.in_phase(
            LoopPhase::Waiting,
        ).signalling(LoopCommand::StartSession { deadline: state.deadline() }),
        (LoopPhase::Connecting, LoopEvent::ConnectFailed) => state.in_phase(
            LoopPhase::Waiting,
        ).answering(LoopCommand::ReportConnectFailure { deadline: state.deadline() }),
        _ => state.answering(LoopCommand::Nothing),
    }
}

/// The accept loop with its idle watchdog, as a state machine.
pub struct AcceptLoop {
    phase: LoopPhase,
    timer: IdleTimer,
}

impl View for AcceptLoop {
    type V = LoopState;

    closed spec fn view(&self) -> LoopState {
        LoopState {
            phase: self.phase,
            timeout_secs: self.timer.timeout_secs(),
            last_sign: self.timer.last_sign(),
        }
    }
}

impl AcceptLoop {
    /// Builds a loop with an idle window of `timeout_secs` whole seconds.
    /// With a window of zero seconds the loop stops at its first timer
    /// check.
    pub fn new(timeout_secs: u32) -> (accept_loop: AcceptLoop)
        ensures
            accept_loop@ == fresh_loop(timeout_secs),
    {
        AcceptLoop { phase: LoopPhase::Created, timer: IdleTimer::new(timeout_secs, 0) }
    }

    /// Where the loop stands.
    pub fn phase(&self) -> (phase: LoopPhase)
        ensures
            phase == self@.phase,
    {
        self.phase
    }

    /// The configured idle window in whole seconds.
    pub fn timeout_secs(&self) -> (secs: u32)
        ensures
            secs == self@.timeout_secs,
    {
        self.timer.timeout_secs()
    }

    /// The clock reading at which the idle window runs out unless a sign of
    /// life comes first.
    pub fn deadline(&self) -> (deadline: u64)
        ensures
            deadline == self@.deadline(),
    {
        self.timer.deadline()
    }

    /// Whether the loop has stopped, and why.
    pub fn stopped(&self) -> (reason: Option<StopReason>)
        ensures
            reason == match self@.phase {
                LoopPhase::Stopped(reason) => Some(reason),
                _ => None,
            },
    {
        match self.phase {
            LoopPhase::Stopped(reason) => Some(reason),
            _ => None,
        }
    }

    /// Takes note of `event` and says what to do next, as [`loop_step`] lays
    /// down.
    pub fn step(&mut self, event: LoopEvent) -> (reply: LoopReply)
        ensures
            final(self)@ == loop_step(old(self)@, event).state,
            reply == loop_step(old(self)@, event).reply,
    {
        match (self.phase, event) {
            (LoopPhase::Created, LoopEvent::Started) => {
                self.phase = LoopPhase::Binding;
                LoopReply {
                    command: LoopCommand::Listen { reuse_address: true, backlog: LISTEN_BACKLOG },
                    signal: false,
                }
            },
            (LoopPhase::Binding, LoopEvent::Listening { now }) => {
                self.timer.restart(now);
                self.phase = LoopPhase::Waiting;
                LoopReply {
                    command: LoopCommand::Wait { deadline: self.timer.deadline() },
                    signal: false,
                }
            },
            (LoopPhase::Binding, LoopEvent::BindFailed) => self.stop(StopReason::BindFailed),
            (LoopPhase::Waiting, LoopEvent::Accepted { now }) => {
                self.timer.restart(now);
                self.phase = LoopPhase::Connecting;
                LoopReply { command: LoopCommand::Connect, signal: false }
            },
            (LoopPhase::Waiting, LoopEvent::AcceptFailed) => self.stop(StopReason::AcceptFailed),
            (LoopPhase::Waiting, LoopEvent::Activity { now }) => {
                self.timer.restart(now);
                LoopReply {
                    command: LoopCommand::Wait { deadline: self.timer.deadline() },
                    signal: false,
                }
            },
            (LoopPhase::Waiting, LoopEvent::TimerElapsed { now }) => {
                if self.timer.expired(now) {
                    let timeout_secs = self.timer.timeout_secs();
                    self.stop(StopReason::IdleTimeout { timeout_secs })
                } else {
                    LoopReply {
                        command: LoopCommand::Wait { deadline: self.timer.deadline() },
                        signal: false,
                    }
                }
            },
            (LoopPhase::Connecting, LoopEvent::Connected) => {
                self.phase = LoopPhase::Waiting;
                LoopReply {
                    command: LoopCommand::StartSession { deadline: self.timer.deadline() },
                    signal: true,
                }
            },
            (LoopPhase::Connecting, LoopEvent::ConnectFailed) => {
                self.phase = LoopPhase::Waiting;
                LoopReply {
                    command: LoopCommand::ReportConnectFailure { deadline: self.timer.deadline() },
                    signal: false,
                }
            },
            _ => LoopReply { command: LoopCommand::Nothing, signal: false },
        }
    }

    /// Stops the loop for `reason`.
    fn stop(&mut self, reason: StopReason) -> (reply: LoopReply)
        ensures
            final(self)@ == old(self)@.in_phase(LoopPhase::Stopped(reason)),
            reply == (LoopReply { command: LoopCommand::Exit { reason }, signal: false }),
    {
        self.phase = LoopPhase::Stopped(reason);
        LoopReply { command: LoopCommand::Exit { reason }, signal: false }
    }
}

/// The loop with an idle window of `timeout_secs` seconds that was built and
/// then told `events`, one after the other.
pub open spec fn loop_after(timeout_secs: u32, events: Seq<LoopEvent>) -> LoopState
    decreases events.len(),
{
    if events.len() == 0 {
        fresh_loop(timeout_secs)
    } else {
        loop_step(loop_after(timeout_secs, events.drop_last()), events.last()).state
    }
}

/// The reply of such a loop to the last of `events`.
pub open spec fn loop_reply_to_last(timeout_secs: u32, events: Seq<LoopEvent>) -> LoopReply
    recommends
        events.len() > 0,
{
    loop_step(loop_after(timeout_secs, events.drop_last()), events.last()).reply
}

/// Whether every timer check among `events` came in time: less than a whole
/// idle window after the latest sign of life that the loop had heard by
/// then.
pub open spec fn checked_in_time(timeout_secs: u32, events: Seq<LoopEvent>) -> bool
    decreases events.len(),
{
    events.len() == 0 || {
        &&& checked_in_time(timeout_secs, events.drop_last())
        &&& events.last() matches LoopEvent::TimerElapsed { now } ==> !window_over(
            timeout_secs,
            loop_after(timeout_secs, events.drop_last()).last_sign,
            now,
        )
    }
}

/// One attempt for each of `times`: a connection that was accepted at that
/// clock reading and for which the destination could not be opened.
pub open spec fn refused_attempts(times: Seq<u64>) -> Seq<LoopEvent>
    decreases times.len(),
{
    if times.len() == 0 {
        Seq::empty()
    } else {
        refused_attempts(times.drop_last()).push(LoopEvent::Accepted { now: times.last() }).push(
            LoopEvent::ConnectFailed,
        )
    }
}

/// No event changes the idle window, and none moves the latest sign of life
/// back in time.
pub proof fn lemma_window_is_fixed(state: LoopState, event: LoopEvent)
    ensures
        loop_step(state, event).state.timeout_secs == state.timeout_secs,
        loop_step(state, event).state.last_sign >= state.last_sign,
{
}

/// The loop goes on exactly as long as something gives a sign of life within
/// each idle window. A timer check stops a waiting loop if and only if the
/// whole window has passed since the latest sign of life, and then for that
/// reason and with the configured duration; otherwise the loop waits on,
/// until the same deadline as before.
pub proof fn lemma_stops_exactly_when_idle(state: LoopState, now: u64)
    requires
        state.phase == LoopPhase::Waiting,
    ensures
        window_over(state.timeout_secs, state.last_sign, now) ==> loop_step(
            state,
            LoopEvent::TimerElapsed { now },
        ) == state.stopping(StopReason::IdleTimeout { timeout_secs: state.timeout_secs }),
        !window_over(state.timeout_secs, state.last_sign, now) ==> loop_step(
            state,
            LoopEvent::TimerElapsed { now },
        ) == state.answering(LoopCommand::Wait { deadline: state.deadline() }),
{
}

/// Nothing but a failure to bind, a failure to accept and the end of the idle
/// window stops the loop. In particular no failure to open the destination
/// does, and nothing that happens in a session.
pub proof fn lemma_only_three_ways_to_stop(state: LoopState, event: LoopEvent)
    requires
        !(state.phase is Stopped),
        loop_step(state, event).state.phase is Stopped,
    ensures
        ({
            ||| state.phase == LoopPhase::Binding && event == LoopEvent::BindFailed
            ||| state.phase == LoopPhase::Waiting && event == LoopEvent::AcceptFailed
            ||| state.phase == LoopPhase::Waiting && (event matches LoopEvent::TimerElapsed {
                now,
            } && window_over(state.timeout_secs, state.last_sign, now))
        }),
{
}

/// A loop that has stopped stays stopped and asks for nothing more.
pub proof fn lemma_stopped_is_final(state: LoopState, event: LoopEvent)
    requires
        state.phase is Stopped,
    ensures
        loop_step(state, event) == state.answering(LoopCommand::Nothing),
{
}

/// A loop that nobody ever connects to stops at the end of its first idle
/// window. Started and listening from the clock reading `listening_at`, it
/// is told to wait until the window has passed from then; and a timer check
/// at `now`, with nothing in between, stops it if and only if the whole
/// window has passed since `listening_at`.
pub proof fn lemma_stops_when_never_contacted(timeout_secs: u32, listening_at: u64, now: u64)
    ensures
        ({
            let listening = seq![LoopEvent::Started, LoopEvent::Listening { now: listening_at }];
            let checked = listening.push(LoopEvent::TimerElapsed { now });
            &&& loop_after(timeout_secs, listening).phase == LoopPhase::Waiting
            &&& loop_reply_to_last(timeout_secs, listening).command == LoopCommand::Wait {
                deadline: deadline_of(timeout_secs, listening_at) as u64,
            }
            &&& window_over(timeout_secs, listening_at, now) ==> loop_after(
                timeout_secs,
                checked,
            ).phase == LoopPhase::Stopped(StopReason::IdleTimeout { timeout_secs })
            &&& !window_over(timeout_secs, listening_at, now) ==> loop_after(
                timeout_secs,
                checked,
            ).phase == LoopPhase::Waiting
        }),
{
    let started = seq![LoopEvent::Started];
    let listening = seq![LoopEvent::Started, LoopEvent::Listening { now: listening_at }];
    let checked = listening.push(LoopEvent::TimerElapsed { now });
    assert(started.drop_last() =~= Seq::<LoopEvent>::empty());
    assert(listening.drop_last() =~= started);
    assert(checked.drop_last() =~= listening);
    assert(loop_after(timeout_secs, started.drop_last()) == fresh_loop(timeout_secs));
    assert(loop_after(timeout_secs, started).phase == LoopPhase::Binding);
    assert(loop_after(timeout_secs, started).last_sign == 0);
    assert(loop_after(timeout_secs, listening).last_sign == listening_at);
}

/// Traffic keeps the loop alive. As long as every timer check comes less
/// than a whole idle window after the latest sign of life, the loop is never
/// stopped for idleness, however long that goes on.
pub proof fn lemma_traffic_keeps_the_loop_alive(timeout_secs: u32, events: Seq<LoopEvent>)
    requires
        checked_in_time(timeout_secs, events),
    ensures
        !(loop_after(timeout_secs, events).phase matches LoopPhase::Stopped(
            StopReason::IdleTimeout { .. },
        )),
    decreases events.len(),
{
    if events.len() > 0 {
        lemma_traffic_keeps_the_loop_alive(timeout_secs, events.drop_last());
        lemma_loop_after_keeps_window(timeout_secs, events.drop_last());
    }
}

/// Signs of life at gaps shorter than the idle window leave the timer no
/// chance. If the next sign of life comes at `next`, less than a whole window
/// after the latest one, then no timer check up to then stops the loop, and
/// the sign of life itself restarts the window from `next`.
pub proof fn lemma_no_check_before_the_next_sign_stops(state: LoopState, now: u64, next: u64)
    requires
        state.phase == LoopPhase::Waiting,
        now <= next,
        elapsed_between(state.last_sign, next) < window_of(state.timeout_secs),
    ensures
        loop_step(state, LoopEvent::TimerElapsed { now }) == state.answering(
            LoopCommand::Wait { deadline: state.deadline() },
        ),
        loop_step(state, LoopEvent::Activity { now: next }).state.phase == LoopPhase::Waiting,
        loop_step(state, LoopEvent::Activity { now: next }).state.last_sign == later_of(
            state.last_sign,
            next,
        ),
{
}

/// The idle window is that of the whole loop, not of a connection. Whatever
/// happened before, and however many sessions were started and are still
/// open, a waiting loop that hears nothing for a whole window after its
/// latest sign of life stops at the next timer check.
pub proof fn lemma_silence_stops_the_loop(timeout_secs: u32, events: Seq<LoopEvent>, now: u64)
    requires
        loop_after(timeout_secs, events).phase == LoopPhase::Waiting,
        window_over(timeout_secs, loop_after(timeout_secs, events).last_sign, now),
    ensures
        loop_after(timeout_secs, events.push(LoopEvent::TimerElapsed { now })).phase
            == LoopPhase::Stopped(StopReason::IdleTimeout { timeout_secs }),
        loop_reply_to_last(timeout_secs, events.push(LoopEvent::TimerElapsed { now }))
            == (LoopReply {
            command: LoopCommand::Exit { reason: StopReason::IdleTimeout { timeout_secs } },
            signal: false,
        }),
{
    lemma_loop_after_keeps_window(timeout_secs, events);
    assert(events.push(LoopEvent::TimerElapsed { now }).drop_last() =~= events);
}

/// A session that was started and then fell silent does not hold the loop
/// up. After a connection was accepted at `accepted_at` and its session
/// started, a timer check stops the loop if and only if the whole window has
/// passed since the latest sign of life, of which the accepted connection
/// is one.
pub proof fn lemma_silent_session_does_not_hold_the_loop(
    state: LoopState,
    accepted_at: u64,
    now: u64,
)
    requires
        state.phase == LoopPhase::Waiting,
    ensures
        ({
            let accepted = loop_step(state, LoopEvent::Accepted { now: accepted_at });
            let connected = loop_step(accepted.state, LoopEvent::Connected);
            let checked = loop_step(connected.state, LoopEvent::TimerElapsed { now });
            let latest = later_of(state.last_sign, accepted_at);
            &&& connected.reply.command is StartSession
            &&& connected.state.phase == LoopPhase::Waiting
            &&& connected.state.last_sign == latest
            &&& checked.state.phase is Stopped <==> window_over(state.timeout_secs, latest, now)
        }),
{
}

/// A destination that refuses connections does not bring the listener down.
/// The attempt is reported, no sign of life is sent and no session started,
/// and the loop waits again; the next connection is accepted and served as
/// if nothing had happened.
pub proof fn lemma_refused_destination_is_survived(state: LoopState, first: u64, second: u64)
    requires
        state.phase == LoopPhase::Waiting,
    ensures
        ({
            let accepted = loop_step(state, LoopEvent::Accepted { now: first });
            let refused = loop_step(accepted.state, LoopEvent::ConnectFailed);
            let again = loop_step(refused.state, LoopEvent::Accepted { now: second });
            let served = loop_step(again.state, LoopEvent::Connected);
            &&& accepted.reply == (LoopReply { command: LoopCommand::Connect, signal: false })
            &&& refused.reply == (LoopReply {
                command: LoopCommand::ReportConnectFailure { deadline: refused.state.deadline() },
                signal: false,
            })
            &&& refused.state == state.revived(first)
            &&& again.reply == (LoopReply { command: LoopCommand::Connect, signal: false })
            &&& served.reply == (LoopReply {
                command: LoopCommand::StartSession { deadline: served.state.deadline() },
                signal: true,
            })
            &&& served.state.phase == LoopPhase::Waiting
        }),
{
}

/// However often the destination refuses, the listener serves on: after any
/// number of attempts that all failed to open the destination, a loop that
/// was waiting is waiting again.
pub proof fn lemma_every_refusal_is_survived(
    timeout_secs: u32,
    events: Seq<LoopEvent>,
    times: Seq<u64>,
)
    requires
        loop_after(timeout_secs, events).phase == LoopPhase::Waiting,
    ensures
        loop_after(timeout_secs, events + refused_attempts(times)).phase == LoopPhase::Waiting,
    decreases times.len(),
{
    if times.len() == 0 {
        assert(events + refused_attempts(times) =~= events);
    } else {
        let earlier = events + refused_attempts(times.drop_last());
        let accepted = earlier.push(LoopEvent::Accepted { now: times.last() });
        let refused = accepted.push(LoopEvent::ConnectFailed);
        lemma_every_refusal_is_survived(timeout_secs, events, times.drop_last());
        assert(events + refused_attempts(times) =~= refused);
        assert(refused.drop_last() =~= accepted);
        assert(accepted.drop_last() =~= earlier);
        assert(loop_after(timeout_secs, accepted).phase == LoopPhase::Connecting);
    }
}

/// The idle window of a loop is the one that it was built with.
pub proof fn lemma_loop_after_keeps_window(timeout_secs: u32, events: Seq<LoopEvent>)
    ensures
        loop_after(timeout_secs, events).timeout_secs == timeout_secs,
    decreases events.len(),
{
    if events.len() > 0 {
        lemma_loop_after_keeps_window(timeout_secs, events.drop_last());
    }
}

} // verus!
