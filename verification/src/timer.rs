//! A fixed-interval trigger with drift correction.
//!
//! A `Timer` accumulates elapsed wall-clock time and reports that it has
//! "sprung" once the accumulated time reaches its period.  Draining a sprung
//! timer with `reset_with_overflow` subtracts exactly one period, so any
//! overshoot is preserved and the timer fires, on average, once per period of
//! real elapsed time however irregularly it is polled.

use vstd::arithmetic::div_mod::lemma_fundamental_div_mod_converse;
use vstd::prelude::*;

verus! {

/// Durations are nanoseconds held in a `u64`.
pub struct Timer {
    period: u64,
    accumulated: u64,
}

impl Timer {
    /// The fixed firing interval, in nanoseconds.
    pub closed spec fn period(self) -> u64 {
        self.period
    }

    /// Elapsed time gathered since the last drain, in nanoseconds.
    pub closed spec fn accumulated(self) -> u64 {
        self.accumulated
    }

    /// A timer is well formed when its period is a positive interval.
    pub open spec fn wf(self) -> bool {
        self.period() > 0
    }

    /// The timer has gathered at least one full period.
    pub open spec fn spec_sprung(self) -> bool {
        self.accumulated() >= self.period()
    }

    /// Time left until the next spring, zero once sprung.
    pub open spec fn spec_remainder(self) -> int {
        if self.spec_sprung() {
            0
        } else {
            self.period() - self.accumulated()
        }
    }

    pub fn new(period: u64) -> (t: Timer)
        requires
            period > 0,
        ensures
            t.period() == period,
            t.accumulated() == 0,
            t.wf(),
    {
        Timer { period, accumulated: 0 }
    }

    /// Adds `dt` to the accumulated time.
    pub fn elapsed(&mut self, dt: u64)
        requires
            old(self).accumulated() + dt <= u64::MAX,
        ensures
            final(self).period() == old(self).period(),
            final(self).accumulated() == old(self).accumulated() + dt,
    {
        self.accumulated = self.accumulated + dt;
    }

    pub fn sprung(&self) -> (b: bool)
        ensures
            b == self.spec_sprung(),
    {
        self.accumulated >= self.period
    }

    /// Subtracts exactly one period, preserving any overshoot so the next
    /// spring keeps a consistent phase.  Only meaningful on a sprung timer.
    pub fn reset_with_overflow(&mut self)
        requires
            old(self).spec_sprung(),
        ensures
            final(self).period() == old(self).period(),
            final(self).accumulated() == old(self).accumulated() - old(self).period(),
    {
        self.accumulated = self.accumulated - self.period;
    }

    /// Zeroes the accumulated time, discarding phase.  Used for one-shot
    /// re-arming where phase continuity does not matter.
    pub fn reset(&mut self)
        ensures
            final(self).period() == old(self).period(),
            final(self).accumulated() == 0,
    {
        self.accumulated = 0;
    }

    /// Time left until the next spring, clamped at zero; sizes the sleep.
    pub fn remainder(&self) -> (r: u64)
        ensures
            r == self.spec_remainder(),
    {
        if self.accumulated >= self.period {
            0
        } else {
            self.period - self.accumulated
        }
    }

    /// Drains the timer: springs are acknowledged with `reset_with_overflow`
    /// until the timer is no longer sprung, and their number is returned.
    ///
    /// This is the anti-drift law in one statement: after gathering `s`
    /// nanoseconds against a period `p`, a drain observes exactly `s / p`
    /// springs and leaves `s % p` accumulated, so no elapsed time is ever
    /// lost to the drain.
    pub fn drain(&mut self) -> (springs: u64)
        requires
            old(self).wf(),
        ensures
            final(self).period() == old(self).period(),
            springs == old(self).accumulated() as int / old(self).period() as int,
            final(self).accumulated() == old(self).accumulated() as int % old(self).period() as int,
    {
        let mut springs: u64 = 0;
        while self.sprung()
            invariant
                self.period() == old(self).period(),
                self.period() > 0,
                self.period() * springs + self.accumulated() == old(self).accumulated(),
            decreases self.accumulated(),
        {
            self.reset_with_overflow();
            assert(self.period() * (springs + 1) == self.period() * springs + self.period())
                by (nonlinear_arith);
            assert(springs + 1 <= self.period() * (springs + 1)) by (nonlinear_arith)
                requires self.period() >= 1, springs >= 0;
            springs = springs + 1;
        }
        proof {
            lemma_fundamental_div_mod_converse(
                old(self).accumulated() as int,
                old(self).period() as int,
                springs as int,
                self.accumulated() as int,
            );
        }
        springs
    }
}

/// However the elapsed time `s` was gathered, if it covers `k` whole periods
/// `p` then a drain observes at least `k` springs.
pub proof fn lemma_drain_covers_periods(s: int, p: int, k: int)
    requires
        p > 0,
        k >= 0,
        s >= k * p,
    ensures
        s / p >= k,
{
    assert(s / p >= k) by (nonlinear_arith)
        requires p > 0, k >= 0, s >= k * p;
}

} // verus!
