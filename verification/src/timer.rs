//! The idle timer: a single countdown that every sign of life restarts.
//!
//! The timer owns no clock. Whoever drives it reads a monotonic clock in
//! milliseconds and hands the reading in; the timer remembers the latest sign
//! of life and says whether the idle window has run out since.

use vstd::prelude::*;

verus! {

/// Milliseconds in one second, the unit in which the idle window is configured.
pub const MILLIS_PER_SECOND: u64 = 1000;

/// The length in milliseconds of an idle window of `timeout_secs` whole
/// seconds.
pub open spec fn window_of(timeout_secs: u32) -> int {
    timeout_secs as int * 1000
}

/// The time that passed from `since` to `now`, taken as none where the clock
/// reading lies before `since`.
pub open spec fn elapsed_between(since: u64, now: u64) -> int {
    if now >= since {
        now - since
    } else {
        0
    }
}

/// Whether a window of `timeout_secs` seconds that was restarted at `since`
/// has run out at `now`: no less than the whole window has passed.
pub open spec fn window_over(timeout_secs: u32, since: u64, now: u64) -> bool {
    elapsed_between(since, now) >= window_of(timeout_secs)
}

/// The later of two clock readings.
pub open spec fn later_of(a: u64, b: u64) -> u64 {
    if a >= b {
        a
    } else {
        b
    }
}

/// The clock reading at which a window of `timeout_secs` seconds that was
/// restarted at `since` runs out, or the last reading that the clock can
/// show where that lies beyond it.
pub open spec fn deadline_of(timeout_secs: u32, since: u64) -> int {
    if since + window_of(timeout_secs) <= u64::MAX {
        since + window_of(timeout_secs)
    } else {
        u64::MAX as int
    }
}

/// Computes the length of the idle window in milliseconds.
pub fn window_millis(timeout_secs: u32) -> (window: u64)
    ensures
        window == window_of(timeout_secs),
{
    (timeout_secs as u64) * MILLIS_PER_SECOND
}

/// The countdown of the idle watchdog.
#[derive(Clone, Copy, Debug, PartialEq, Eq, Structural)]
pub struct IdleTimer {
    timeout_secs: u32,
    last_sign: u64,
}

impl IdleTimer {
    /// The configured idle window in whole seconds.
    pub closed spec fn spec_timeout_secs(&self) -> u32 {
        self.timeout_secs
    }

    /// The clock reading of the latest sign of life.
    pub closed spec fn spec_last_sign(&self) -> u64 {
        self.last_sign
    }

    /// Starts a countdown of `timeout_secs` seconds at the clock reading
    /// `now`.
    pub fn new(timeout_secs: u32, now: u64) -> (timer: IdleTimer)
        ensures
            timer.timeout_secs() == timeout_secs,
            timer.last_sign() == now,
    {
        IdleTimer { timeout_secs, last_sign: now }
    }

    /// The configured idle window in whole seconds.
    #[verifier::when_used_as_spec(spec_timeout_secs)]
    pub fn timeout_secs(&self) -> (secs: u32)
        ensures
            secs == self.timeout_secs(),
    {
        self.timeout_secs
    }

    /// The clock reading of the latest sign of life.
    #[verifier::when_used_as_spec(spec_last_sign)]
    pub fn last_sign(&self) -> (at: u64)
        ensures
            at == self.last_sign(),
    {
        self.last_sign
    }

    /// Restarts the countdown from zero for a sign of life seen at `now`.
    /// A reading older than the latest sign of life changes nothing, so that
    /// signs of life may be reported in any order and none of them ever
    /// shortens the time that is left.
    pub fn restart(&mut self, now: u64)
        ensures
            final(self).timeout_secs() == old(self).timeout_secs(),
            final(self).last_sign() == later_of(old(self).last_sign(), now),
    {
        if now > self.last_sign {
            self.last_sign = now;
        }
    }

    /// The time in milliseconds since the latest sign of life.
    pub fn elapsed(&self, now: u64) -> (elapsed: u64)
        ensures
            elapsed == elapsed_between(self.last_sign(), now),
    {
        if now >= self.last_sign {
            now - self.last_sign
        } else {
            0
        }
    }

    /// Whether the idle window has run out at `now`: whether the whole
    /// window has passed since the latest sign of life. With a window of
    /// zero seconds it has always run out.
    pub fn expired(&self, now: u64) -> (over: bool)
        ensures
            over == window_over(self.timeout_secs(), self.last_sign(), now),
    {
        self.elapsed(now) >= window_millis(self.timeout_secs)
    }

    /// The clock reading at which the idle window runs out unless a sign of
    /// life comes first.
    pub fn deadline(&self) -> (deadline: u64)
        ensures
            deadline == deadline_of(self.timeout_secs(), self.last_sign()),
    {
        self.last_sign.saturating_add(window_millis(self.timeout_secs))
    }
}

/// On a clock that does not run backwards, the idle window has run out
/// exactly from its deadline on, as long as the deadline is a reading that
/// the clock can show. Whoever sleeps until the deadline therefore wakes up
/// to a window that has run out, and nobody who wakes up earlier does.
pub proof fn lemma_expires_at_deadline(timeout_secs: u32, since: u64, now: u64)
    requires
        since <= now,
        since + window_of(timeout_secs) <= u64::MAX,
    ensures
        window_over(timeout_secs, since, now) <==> now >= deadline_of(timeout_secs, since),
{
}

/// A window of zero seconds has run out at every reading of the clock.
pub proof fn lemma_zero_window_is_always_over(since: u64, now: u64)
    ensures
        window_over(0, since, now),
{
}

/// Signs of life may be reported in any order: the countdown that results is
/// the same.
pub proof fn lemma_order_of_signs_is_irrelevant(last: u64, a: u64, b: u64)
    ensures
        later_of(later_of(last, a), b) == later_of(later_of(last, b), a),
{
}

/// A sign of life never shortens the time that is left: whenever the window
/// has run out after it, it had run out without it.
pub proof fn lemma_sign_of_life_only_extends(timeout_secs: u32, last: u64, sign: u64, now: u64)
    ensures
        window_over(timeout_secs, later_of(last, sign), now) ==> window_over(
            timeout_secs,
            last,
            now,
        ),
        deadline_of(timeout_secs, later_of(last, sign)) >= deadline_of(timeout_secs, last),
{
}

} // verus!
