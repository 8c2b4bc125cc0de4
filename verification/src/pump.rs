//! The byte pump: one direction of a relayed connection.
//!
//! A pump never performs I/O itself. It is told how the last operation ended
//! and answers with the next operation to perform, so that every decision of
//! the copy loop is a total function of the pump's phase and of that event.
//! One round of the loop is: wait until the output is writable, read from the
//! input, write what was read, flush. A read of zero bytes is the end of the
//! stream: the output's write side is shut down and the pump stops cleanly.
//! Any failure stops the pump with that failure; nothing is retried.

use vstd::prelude::*;

verus! {

/// The buffer size of a pump unless another one is asked for.
pub const DEFAULT_CAPACITY: usize = 1024;

/// An I/O operation that a pump can have in flight.
#[derive(Clone, Copy, Debug, PartialEq, Eq, Structural)]
pub enum IoOp {
    /// Waiting for the output half to become writable.
    Readiness,
    /// Reading from the input half.
    Read,
    /// Writing a whole chunk to the output half.
    Write,
    /// Flushing the output half.
    Flush,
    /// Shutting down the write side of the output half.
    Shutdown,
}

/// Where a pump stands.
#[derive(Clone, Copy, Debug, PartialEq, Eq, Structural)]
pub enum PumpPhase {
    /// Built, not yet started.
    Created,
    /// The given operation was asked for and has not been answered yet.
    Awaiting(IoOp),
    /// Stopped, cleanly or not. Nothing is asked for any more.
    Finished,
}

/// How a pump ended.
#[derive(Clone, Debug, PartialEq, Eq)]
pub enum PumpOutcome {
    /// The input reached its end and the output's write side was shut down.
    EndOfStream,
    /// The operation `during` failed; `detail` is the failure as reported.
    Failed { during: IoOp, detail: String },
}

/// What the driver of a pump reports to it.
#[derive(Clone, Debug, PartialEq, Eq)]
pub enum PumpEvent {
    /// The driver is ready to run the pump.
    Started,
    /// The output half is writable.
    Writable,
    /// A read returned these bytes; none at all means end of stream.
    Data { bytes: Vec<u8> },
    /// The whole chunk was written.
    Written,
    /// The flush completed.
    Flushed,
    /// The write side of the output half was shut down.
    Closed,
    /// The operation in flight failed.
    Failed { detail: String },
}

/// What a pump asks its driver to do next.
#[derive(Clone, Debug, PartialEq, Eq)]
pub enum PumpCommand {
    /// Wait until the output half is writable.
    AwaitWritable,
    /// Read at most `capacity` bytes from the input half.
    Read { capacity: usize },
    /// Write all of `data` to the output half.
    Write { data: Vec<u8> },
    /// Flush the output half.
    Flush,
    /// Shut down the write side of the output half.
    Shutdown,
    /// The pump has ended with `outcome`; stop driving it.
    Stop { outcome: PumpOutcome },
    /// The event answered nothing that was asked for; nothing changes.
    Nothing,
}

/// The answer of a pump to one event.
#[derive(Clone, Debug, PartialEq, Eq)]
pub struct PumpReply {
    /// The next thing to do.
    pub command: PumpCommand,
    /// Whether the event is a sign of life to pass on to the idle watchdog.
    pub signal: bool,
}

/// The mathematical value of a [`PumpOutcome`].
pub enum PumpOutcomeView {
    EndOfStream,
    Failed { during: IoOp, detail: Seq<char> },
}

/// The mathematical value of a [`PumpEvent`].
pub enum PumpEventView {
    Started,
    Writable,
    Data { bytes: Seq<u8> },
    Written,
    Flushed,
    Closed,
    Failed { detail: Seq<char> },
}

/// The mathematical value of a [`PumpCommand`].
pub enum PumpCommandView {
    AwaitWritable,
    Read { capacity: usize },
    Write { data: Seq<u8> },
    Flush,
    Shutdown,
    Stop { outcome: PumpOutcomeView },
    Nothing,
}

/// The mathematical value of a [`PumpReply`].
pub struct PumpReplyView {
    pub command: PumpCommandView,
    pub signal: bool,
}

impl View for PumpOutcome {
    type V = PumpOutcomeView;

    open spec fn view(&self) -> PumpOutcomeView {
        match *self {
            PumpOutcome::EndOfStream => PumpOutcomeView::EndOfStream,
            PumpOutcome::Failed { during, detail } => PumpOutcomeView::Failed {
                during,
                detail: detail@,
            },
        }
    }
}

impl View for PumpEvent {
    type V = PumpEventView;

    open spec fn view(&self) -> PumpEventView {
        match *self {
            PumpEvent::Started => PumpEventView::Started,
            PumpEvent::Writable => PumpEventView::Writable,
            PumpEvent::Data { bytes } => PumpEventView::Data { bytes: bytes@ },
            PumpEvent::Written => PumpEventView::Written,
            PumpEvent::Flushed => PumpEventView::Flushed,
            PumpEvent::Closed => PumpEventView::Closed,
            PumpEvent::Failed { detail } => PumpEventView::Failed { detail: detail@ },
        }
    }
}

impl View for PumpCommand {
    type V = PumpCommandView;

    open spec fn view(&self) -> PumpCommandView {
        match *self {
            PumpCommand::AwaitWritable => PumpCommandView::AwaitWritable,
            PumpCommand::Read { capacity } => PumpCommandView::Read { capacity },
            PumpCommand::Write { data } => PumpCommandView::Write { data: data@ },
            PumpCommand::Flush => PumpCommandView::Flush,
            PumpCommand::Shutdown => PumpCommandView::Shutdown,
            PumpCommand::Stop { outcome } => PumpCommandView::Stop { outcome: outcome@ },
            PumpCommand::Nothing => PumpCommandView::Nothing,
        }
    }
}

impl View for PumpReply {
    type V = PumpReplyView;

    open spec fn view(&self) -> PumpReplyView {
        PumpReplyView { command: self.command@, signal: self.signal }
    }
}

/// A phase together with the reply that led to it.
pub struct PumpStep {
    pub phase: PumpPhase,
    pub reply: PumpReplyView,
}

/// The step that asks for `op` with `command`.
pub open spec fn ask(op: IoOp, command: PumpCommandView, signal: bool) -> PumpStep {
    PumpStep { phase: PumpPhase::Awaiting(op), reply: PumpReplyView { command, signal } }
}

/// The step that ends the pump with `outcome`. Ending is never a sign of life
/// by itself.
pub open spec fn end(outcome: PumpOutcomeView) -> PumpStep {
    PumpStep {
        phase: PumpPhase::Finished,
        reply: PumpReplyView { command: PumpCommandView::Stop { outcome }, signal: false },
    }
}

/// The step that leaves a pump in `phase` as it was.
pub open spec fn stay(phase: PumpPhase) -> PumpStep {
    PumpStep {
        phase,
        reply: PumpReplyView { command: PumpCommandView::Nothing, signal: false },
    }
}

/// The transition relation of a pump with a buffer of `capacity` bytes: what
/// `event` does to a pump in `phase`.
///
/// The completion of the operation in flight moves the pump on; a failure of
/// it ends the pump; every other event is left unanswered.
pub open spec fn pump_step(phase: PumpPhase, capacity: usize, event: PumpEventView) -> PumpStep {
    match (phase, event) {
        (PumpPhase::Created, PumpEventView::Started) => ask(
            IoOp::Readiness,
            PumpCommandView::AwaitWritable,
            false,
        ),
        (PumpPhase::Awaiting(IoOp::Readiness), PumpEventView::Writable) => ask(
            IoOp::Read,
            PumpCommandView::Read { capacity },
            true,
        ),
        (PumpPhase::Awaiting(IoOp::Read), PumpEventView::Data { bytes }) => if bytes.len() == 0 {
            ask(IoOp::Shutdown, PumpCommandView::Shutdown, true)
        } else {
            ask(IoOp::Write, PumpCommandView::Write { data: bytes }, true)
        },
        (PumpPhase::Awaiting(IoOp::Write), PumpEventView::Written) => ask(
            IoOp::Flush,
            PumpCommandView::Flush,
            false,
        ),
        (PumpPhase::Awaiting(IoOp::Flush), PumpEventView::Flushed) => ask(
            IoOp::Readiness,
            PumpCommandView::AwaitWritable,
            true,
        ),
        (PumpPhase::Awaiting(IoOp::Shutdown), PumpEventView::Closed) => end(
            PumpOutcomeView::EndOfStream,
        ),
        (PumpPhase::Awaiting(op), PumpEventView::Failed { detail }) => end(
            PumpOutcomeView::Failed { during: op, detail },
        ),
        _ => stay(phase),
    }
}

/// One direction of a relayed connection, as a state machine.
pub struct Pump {
    phase: PumpPhase,
    capacity: usize,
}

impl Pump {
    /// A pump always has room for at least one byte, so that a read of zero
    /// bytes can only mean the end of the stream.
    #[verifier::type_invariant]
    spec fn well_formed(self) -> bool {
        self.capacity > 0
    }

    /// Where the pump stands.
    pub closed spec fn spec_phase(&self) -> PumpPhase {
        self.phase
    }

    /// The size of the pump's buffer.
    pub closed spec fn spec_capacity(&self) -> usize {
        self.capacity
    }

    /// Builds a pump with a buffer of `capacity` bytes. Any positive size
    /// will do; there is no pump without a buffer.
    pub fn new(capacity: usize) -> (pump: Option<Pump>)
        ensures
            pump is Some <==> capacity > 0,
            pump matches Some(p) ==> p.phase() == PumpPhase::Created && p.capacity() == capacity,
    {
        if capacity == 0 {
            None
        } else {
            Some(Pump { phase: PumpPhase::Created, capacity })
        }
    }

    /// Where the pump stands.
    #[verifier::when_used_as_spec(spec_phase)]
    pub fn phase(&self) -> (phase: PumpPhase)
        ensures
            phase == self.phase(),
    {
        self.phase
    }

    /// The size of the pump's buffer, which is never zero.
    #[verifier::when_used_as_spec(spec_capacity)]
    pub fn capacity(&self) -> (capacity: usize)
        ensures
            capacity == self.capacity(),
            capacity > 0,
    {
        proof {
            use_type_invariant(self);
        }
        self.capacity
    }

    /// Whether the pump has ended.
    pub fn is_finished(&self) -> (finished: bool)
        ensures
            finished <==> self.phase() == PumpPhase::Finished,
    {
        match self.phase {
            PumpPhase::Finished => true,
            _ => false,
        }
    }

    /// Takes note of `event` and says what to do next, as [`pump_step`] lays
    /// down. The buffer size never changes.
    pub fn step(&mut self, event: PumpEvent) -> (reply: PumpReply)
        ensures
            final(self).phase() == pump_step(old(self).phase(), old(self).capacity(), event@).phase,
            final(self).capacity() == old(self).capacity(),
            reply@ == pump_step(old(self).phase(), old(self).capacity(), event@).reply,
        no_unwind
    {
        proof {
            use_type_invariant(&*self);
        }
        match (self.phase, event) {
            (PumpPhase::Created, PumpEvent::Started) => {
                self.phase = PumpPhase::Awaiting(IoOp::Readiness);
                PumpReply { command: PumpCommand::AwaitWritable, signal: false }
            },
            (PumpPhase::Awaiting(IoOp::Readiness), PumpEvent::Writable) => {
                self.phase = PumpPhase::Awaiting(IoOp::Read);
                PumpReply { command: PumpCommand::Read { capacity: self.capacity }, signal: true }
            },
            (PumpPhase::Awaiting(IoOp::Read), PumpEvent::Data { bytes }) => {
                if bytes.len() == 0 {
                    self.phase = PumpPhase::Awaiting(IoOp::Shutdown);
                    PumpReply { command: PumpCommand::Shutdown, signal: true }
                } else {
                    self.phase = PumpPhase::Awaiting(IoOp::Write);
                    PumpReply { command: PumpCommand::Write { data: bytes }, signal: true }
                }
            },
            (PumpPhase::Awaiting(IoOp::Write), PumpEvent::Written) => {
                self.phase = PumpPhase::Awaiting(IoOp::Flush);
                PumpReply { command: PumpCommand::Flush, signal: false }
            },
            (PumpPhase::Awaiting(IoOp::Flush), PumpEvent::Flushed) => {
                self.phase = PumpPhase::Awaiting(IoOp::Readiness);
                PumpReply { command: PumpCommand::AwaitWritable, signal: true }
            },
            (PumpPhase::Awaiting(IoOp::Shutdown), PumpEvent::Closed) => {
                self.phase = PumpPhase::Finished;
                PumpReply {
                    command: PumpCommand::Stop { outcome: PumpOutcome::EndOfStream },
                    signal: false,
                }
            },
            (PumpPhase::Awaiting(op), PumpEvent::Failed { detail }) => {
                self.phase = PumpPhase::Finished;
                PumpReply {
                    command: PumpCommand::Stop {
                        outcome: PumpOutcome::Failed { during: op, detail },
                    },
                    signal: false,
                }
            },
            _ => PumpReply { command: PumpCommand::Nothing, signal: false },
        }
    }
}

/// The phase of a pump with a buffer of `capacity` bytes that was built and
/// then told `events`, one after the other.
pub open spec fn phase_after(capacity: usize, events: Seq<PumpEventView>) -> PumpPhase
    decreases events.len(),
{
    if events.len() == 0 {
        PumpPhase::Created
    } else {
        pump_step(phase_after(capacity, events.drop_last()), capacity, events.last()).phase
    }
}

/// The reply of such a pump to the last of `events`.
pub open spec fn reply_to_last(capacity: usize, events: Seq<PumpEventView>) -> PumpReplyView
    recommends
        events.len() > 0,
{
    pump_step(phase_after(capacity, events.drop_last()), capacity, events.last()).reply
}

/// Every byte that such a pump took in, in the order of arrival: the chunks
/// that arrived while a read was in flight.
pub open spec fn bytes_taken(capacity: usize, events: Seq<PumpEventView>) -> Seq<u8>
    decreases events.len(),
{
    if events.len() == 0 {
        Seq::empty()
    } else {
        let earlier = bytes_taken(capacity, events.drop_last());
        match (phase_after(capacity, events.drop_last()), events.last()) {
            (PumpPhase::Awaiting(IoOp::Read), PumpEventView::Data { bytes }) => earlier + bytes,
            _ => earlier,
        }
    }
}

/// Every byte that such a pump handed on, in the order of the commands: what
/// its write commands carried.
pub open spec fn bytes_handed_on(capacity: usize, events: Seq<PumpEventView>) -> Seq<u8>
    decreases events.len(),
{
    if events.len() == 0 {
        Seq::empty()
    } else {
        let earlier = bytes_handed_on(capacity, events.drop_last());
        match reply_to_last(capacity, events).command {
            PumpCommandView::Write { data } => earlier + data,
            _ => earlier,
        }
    }
}

/// How many pumps ended in the course of `events`: the number of stop
/// commands.
pub open spec fn stops(capacity: usize, events: Seq<PumpEventView>) -> nat
    decreases events.len(),
{
    if events.len() == 0 {
        0
    } else {
        let earlier = stops(capacity, events.drop_last());
        if reply_to_last(capacity, events).command is Stop {
            earlier + 1
        } else {
            earlier
        }
    }
}

/// A pump relays exactly what it reads. Whatever it is told and in whatever
/// order, the bytes that it hands on to be written are the bytes that it took
/// in: all of them, once, in the order of arrival and unchanged.
pub proof fn lemma_relays_exactly(capacity: usize, events: Seq<PumpEventView>)
    ensures
        bytes_handed_on(capacity, events) == bytes_taken(capacity, events),
    decreases events.len(),
{
    if events.len() > 0 {
        lemma_relays_exactly(capacity, events.drop_last());
        assert(bytes_taken(capacity, events.drop_last()) + Seq::<u8>::empty()
            =~= bytes_taken(capacity, events.drop_last()));
    }
}

/// A pump never asks for an empty write: the end of the stream is passed on
/// as a shutdown, not as a chunk.
pub proof fn lemma_writes_carry_bytes(phase: PumpPhase, capacity: usize, event: PumpEventView)
    ensures
        pump_step(phase, capacity, event).reply.command matches PumpCommandView::Write { data }
            ==> data.len() > 0,
{
}

/// The end of the input is passed on downstream and ends the pump cleanly: a
/// read of no bytes is answered with a shutdown of the output's write side,
/// and the completion of that shutdown with a clean stop.
pub proof fn lemma_end_of_stream_is_passed_on(capacity: usize)
    ensures
        pump_step(
            PumpPhase::Awaiting(IoOp::Read),
            capacity,
            PumpEventView::Data { bytes: Seq::empty() },
        ) == ask(IoOp::Shutdown, PumpCommandView::Shutdown, true),
        pump_step(PumpPhase::Awaiting(IoOp::Shutdown), capacity, PumpEventView::Closed) == end(
            PumpOutcomeView::EndOfStream,
        ),
{
}

/// A failure ends the pump at once, with that failure and with the operation
/// that it befell, and nothing is tried again: no further event is answered.
pub proof fn lemma_failure_is_final(
    op: IoOp,
    capacity: usize,
    detail: Seq<char>,
    later: PumpEventView,
)
    ensures
        pump_step(PumpPhase::Awaiting(op), capacity, PumpEventView::Failed { detail }) == end(
            PumpOutcomeView::Failed { during: op, detail },
        ),
        pump_step(PumpPhase::Finished, capacity, later) == stay(PumpPhase::Finished),
{
}

/// A pump ends at most once, and it has ended exactly if it is finished.
pub proof fn lemma_stops_once(capacity: usize, events: Seq<PumpEventView>)
    ensures
        stops(capacity, events) <= 1,
        stops(capacity, events) == 1 <==> phase_after(capacity, events) == PumpPhase::Finished,
    decreases events.len(),
{
    if events.len() > 0 {
        lemma_stops_once(capacity, events.drop_last());
    }
}

} // verus!
