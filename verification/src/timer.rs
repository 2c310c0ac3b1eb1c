//! The accumulating stopwatch.

use crate::render::render_ns;
use crate::render::spec_render_ns;
use vstd::prelude::*;

verus! {

/// Why an operation on the stopwatch was rejected.
#[derive(Clone, Copy, Debug, PartialEq, Eq, Structural)]
pub enum TimerError {
    /// `pause` was called while no interval was open.
    AlreadyPaused,
    /// `resume` was called while an interval was open.
    AlreadyRunning,
}

/// Length of the interval from clock reading `s` to clock reading `e`,
/// zero when the readings appear out of order.
pub open spec fn interval_ns(s: u64, e: u64) -> u64 {
    if e >= s {
        (e - s) as u64
    } else {
        0
    }
}

/// `u64` addition that stops at `u64::MAX` instead of wrapping.
pub open spec fn sat_add(a: u64, b: u64) -> u64 {
    if a + b <= u64::MAX {
        (a + b) as u64
    } else {
        u64::MAX
    }
}

/// An accumulating stopwatch.  It records nanoseconds over completed
/// intervals and may hold one open interval.  Every operation takes the
/// current clock reading as a plain nanosecond count, so its effect on
/// the recorded state is exact whatever clock the caller uses.
pub struct Timer {
    total_expired: u64,
    started: Option<u64>,
}

impl Timer {
    /// Nanoseconds recorded over all completed intervals.
    pub closed spec fn acc(self) -> u64 {
        self.total_expired
    }

    /// The clock reading at which the open interval began; `None` while
    /// paused.
    pub closed spec fn running_since(self) -> Option<u64> {
        self.started
    }

    pub open spec fn is_running(self) -> bool {
        self.running_since() is Some
    }

    /// The total at reading `now`: recorded time plus the open interval,
    /// if one is open.
    pub open spec fn spec_total(self, now: u64) -> u64 {
        match self.running_since() {
            Some(s) => sat_add(self.acc(), interval_ns(s, now)),
            None => self.acc(),
        }
    }

    /// A fresh stopwatch: paused, with nothing recorded.
    pub fn new() -> (t: Timer)
        ensures
            t.acc() == 0,
            !t.is_running(),
    {
        Timer { total_expired: 0, started: None }
    }

    /// Open an interval at reading `now`.  Unchecked: when an interval is
    /// already open it is discarded and a new one begins, with nothing
    /// added to the recorded total.
    pub fn start(&mut self, now: u64)
        ensures
            final(self).acc() == old(self).acc(),
            final(self).running_since() == Some(now),
    {
        self.started = Some(now);
    }

    /// Close the open interval at reading `now`, adding its length to the
    /// recorded total.  Rejected when the stopwatch is already paused, in
    /// which case nothing changes.
    pub fn pause(&mut self, now: u64) -> (r: Result<(), TimerError>)
        ensures
            old(self).is_running() ==> {
                &&& r == Ok::<(), TimerError>(())
                &&& final(self).acc() == sat_add(
                    old(self).acc(),
                    interval_ns(old(self).running_since().unwrap(), now),
                )
                &&& !final(self).is_running()
            },
            !old(self).is_running() ==> {
                &&& r == Err::<(), TimerError>(TimerError::AlreadyPaused)
                &&& *final(self) == *old(self)
            },
    {
        match self.started {
            Some(start) => {
                let elapsed: u64 = if now >= start {
                    now - start
                } else {
                    0
                };
                self.total_expired = if self.total_expired <= u64::MAX - elapsed {
                    self.total_expired + elapsed
                } else {
                    u64::MAX
                };
                self.started = None;
                Ok(())
            },
            None => Err(TimerError::AlreadyPaused),
        }
    }

    /// Open an interval at reading `now`.  Rejected when an interval is
    /// already open, in which case nothing changes.
    pub fn resume(&mut self, now: u64) -> (r: Result<(), TimerError>)
        ensures
            !old(self).is_running() ==> {
                &&& r == Ok::<(), TimerError>(())
                &&& final(self).acc() == old(self).acc()
                &&& final(self).running_since() == Some(now)
            },
            old(self).is_running() ==> {
                &&& r == Err::<(), TimerError>(TimerError::AlreadyRunning)
                &&& *final(self) == *old(self)
            },
    {
        match self.started {
            Some(_) => Err(TimerError::AlreadyRunning),
            None => {
                self.started = Some(now);
                Ok(())
            },
        }
    }

    /// Like `resume`, but a no-op when an interval is already open.
    pub fn resume_if_paused(&mut self, now: u64)
        ensures
            !old(self).is_running() ==> {
                &&& final(self).acc() == old(self).acc()
                &&& final(self).running_since() == Some(now)
            },
            old(self).is_running() ==> *final(self) == *old(self),
    {
        if self.started.is_none() {
            self.started = Some(now);
        }
    }

    /// The total at reading `now`: recorded nanoseconds plus, when an
    /// interval is open, its length so far.  Does not change the state.
    pub fn total(&self, now: u64) -> (r: u64)
        ensures
            r == self.spec_total(now),
    {
        match self.started {
            Some(start) => {
                let elapsed: u64 = if now >= start {
                    now - start
                } else {
                    0
                };
                if self.total_expired <= u64::MAX - elapsed {
                    self.total_expired + elapsed
                } else {
                    u64::MAX
                }
            },
            None => self.total_expired,
        }
    }

    /// Nanoseconds recorded so far, excluding any open interval.
    pub fn accumulated(&self) -> (r: u64)
        ensures
            r == self.acc(),
    {
        self.total_expired
    }

    /// The total at reading `now`, rendered as
    /// `"<seconds>.<millis> seconds"` with the milliseconds padded to
    /// three digits.
    pub fn render(&self, now: u64) -> (r: String)
        ensures
            r@ == spec_render_ns(self.spec_total(now)),
    {
        render_ns(self.total(now))
    }
}

/// The sum of the lengths of a sequence of intervals, each given as a
/// pair of clock readings (opened, closed).
pub open spec fn sum_intervals(rounds: Seq<(u64, u64)>) -> int
    decreases rounds.len(),
{
    if rounds.len() == 0 {
        0
    } else {
        sum_intervals(rounds.drop_last()) + interval_ns(rounds.last().0, rounds.last().1)
    }
}

/// The recorded total after running a sequence of rounds against a
/// stopwatch holding `acc0`: each round opens an interval at its first
/// reading (`start` or `resume`) and closes it at its second (`pause`),
/// which by `pause`'s contract adds exactly
/// `sat_add(acc, interval_ns(opened, closed))` to the recorded total.
pub open spec fn acc_after(acc0: u64, rounds: Seq<(u64, u64)>) -> u64
    decreases rounds.len(),
{
    if rounds.len() == 0 {
        acc0
    } else {
        sat_add(acc_after(acc0, rounds.drop_last()), interval_ns(rounds.last().0, rounds.last().1))
    }
}

/// An interval sum is never negative.
pub proof fn lemma_sum_intervals_nonneg(rounds: Seq<(u64, u64)>)
    ensures
        sum_intervals(rounds) >= 0,
    decreases rounds.len(),
{
    if rounds.len() > 0 {
        lemma_sum_intervals_nonneg(rounds.drop_last());
    }
}

proof fn lemma_acc_after_adds(acc0: u64, rounds: Seq<(u64, u64)>)
    requires
        acc0 + sum_intervals(rounds) <= u64::MAX,
    ensures
        acc_after(acc0, rounds) == acc0 + sum_intervals(rounds),
    decreases rounds.len(),
{
    if rounds.len() > 0 {
        lemma_sum_intervals_nonneg(rounds.drop_last());
        lemma_acc_after_adds(acc0, rounds.drop_last());
    }
}

/// After any sequence of alternating open/close rounds on a fresh
/// stopwatch, the recorded total equals the sum of the intervals'
/// wall-clock lengths, provided that sum fits in `u64`.  Calls to
/// `resume_if_paused` between rounds leave the state unchanged while an
/// interval is open, so they do not disturb this (see its contract).
pub proof fn lemma_total_is_sum_of_intervals(rounds: Seq<(u64, u64)>)
    requires
        sum_intervals(rounds) <= u64::MAX,
    ensures
        acc_after(0, rounds) == sum_intervals(rounds),
{
    lemma_acc_after_adds(0, rounds);
}

/// The same law with an interval still open: on a stopwatch whose
/// recorded total came from the rounds and whose open interval began at
/// `s`, the total at reading `now` is the rounds' interval sum plus the
/// open interval's length so far, provided the whole sum fits in `u64`.
pub proof fn lemma_total_with_open_interval(t: Timer, rounds: Seq<(u64, u64)>, s: u64, now: u64)
    requires
        t.acc() == acc_after(0, rounds),
        t.running_since() == Some(s),
        sum_intervals(rounds) + interval_ns(s, now) <= u64::MAX,
    ensures
        t.spec_total(now) == sum_intervals(rounds) + interval_ns(s, now),
{
    lemma_acc_after_adds(0, rounds);
}

/// Without an intervening pause, the total never decreases as the clock
/// reading advances.
pub proof fn lemma_total_monotonic(t: Timer, n1: u64, n2: u64)
    requires
        n1 <= n2,
    ensures
        t.spec_total(n1) <= t.spec_total(n2),
{
}

} // verus!
