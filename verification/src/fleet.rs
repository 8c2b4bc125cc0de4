//! Many sessions side by side.
//!
//! The relay serves any number of connections at once, each with a session
//! of its own. Sessions share nothing, so what happens in one of them, a
//! failure above all, leaves every other one as it is. This module states
//! that over a log of everything that happened in the whole relay.

use vstd::prelude::*;
use crate::pump::PumpEventView;
use crate::session::Direction;
use crate::session::SessionView;
use crate::session::fresh_session;
use crate::session::session_after;
use crate::session::session_step;

verus! {

/// One entry of the relay's log: an event of one direction of one session.
pub struct Entry {
    /// The number of the session, in the order in which sessions started.
    pub session: nat,
    /// The direction of that session in which the event happened.
    pub direction: Direction,
    /// What happened.
    pub event: PumpEventView,
}

/// Every session of the relay after everything in `log` happened, by the
/// number of the session. All sessions have buffers of `capacity` bytes.
pub open spec fn fleet_after(capacity: usize, log: Seq<Entry>) -> Map<nat, SessionView>
    decreases log.len(),
{
    if log.len() == 0 {
        Map::new(|session: nat| true, |session: nat| fresh_session(capacity))
    } else {
        let before = fleet_after(capacity, log.drop_last());
        let entry = log.last();
        before.insert(
            entry.session,
            session_step(before[entry.session], entry.direction, entry.event).state,
        )
    }
}

/// What happened in `session` according to `log`, in the order of the log.
pub open spec fn own_events(log: Seq<Entry>, session: nat) -> Seq<(Direction, PumpEventView)>
    decreases log.len(),
{
    if log.len() == 0 {
        Seq::empty()
    } else if log.last().session == session {
        own_events(log.drop_last(), session).push((log.last().direction, log.last().event))
    } else {
        own_events(log.drop_last(), session)
    }
}

/// Sessions are isolated from each other. Whatever happens in the relay and
/// in whatever order, each session is where it would be if it were the only
/// one and had been told its own events alone.
pub proof fn lemma_sessions_are_isolated(capacity: usize, log: Seq<Entry>, session: nat)
    ensures
        fleet_after(capacity, log).dom().contains(session),
        fleet_after(capacity, log)[session] == session_after(capacity, own_events(log, session)),
    decreases log.len(),
{
    if log.len() > 0 {
        lemma_sessions_are_isolated(capacity, log.drop_last(), session);
        lemma_sessions_are_isolated(capacity, log.drop_last(), log.last().session);
        if log.last().session == session {
            let own = own_events(log, session);
            assert(own.drop_last() =~= own_events(log.drop_last(), session));
        }
    }
}

/// An event of one session is none of another: wherever it is put into the
/// log, the events of every other session are the same as without it.
pub proof fn lemma_foreign_entry_is_not_seen(log: Seq<Entry>, at: int, entry: Entry, session: nat)
    requires
        0 <= at <= log.len(),
        entry.session != session,
    ensures
        own_events(log.insert(at, entry), session) == own_events(log, session),
    decreases log.len() - at,
{
    let longer = log.insert(at, entry);
    if at == log.len() {
        assert(longer.drop_last() =~= log);
    } else {
        lemma_foreign_entry_is_not_seen(log.drop_last(), at, entry, session);
        assert(longer.drop_last() =~= log.drop_last().insert(at, entry));
        assert(longer.last() == log.last());
    }
}

/// A failure in one session does not reach another. Put a failure of any
/// operation of session `faulty` anywhere into the log: every other session
/// ends where it would have ended without it, having been told the same
/// events and hence having handed on the same bytes.
pub proof fn lemma_failure_stays_in_its_session(
    capacity: usize,
    log: Seq<Entry>,
    at: int,
    faulty: nat,
    direction: Direction,
    detail: Seq<char>,
    session: nat,
)
    requires
        0 <= at <= log.len(),
        faulty != session,
    ensures
        ({
            let failure = Entry {
                session: faulty,
                direction,
                event: PumpEventView::Failed { detail },
            };
            &&& own_events(log.insert(at, failure), session) == own_events(log, session)
            &&& fleet_after(capacity, log.insert(at, failure))[session] == fleet_after(
                capacity,
                log,
            )[session]
        }),
{
    let failure = Entry { session: faulty, direction, event: PumpEventView::Failed { detail } };
    lemma_foreign_entry_is_not_seen(log, at, failure, session);
    lemma_sessions_are_isolated(capacity, log, session);
    lemma_sessions_are_isolated(capacity, log.insert(at, failure), session);
}

} // verus!
