//! A countdown measured against a clock that the caller samples.

use vstd::prelude::*;

verus! {

/// A countdown of `duration` milliseconds that runs from the moment of its
/// last restart. Every reading takes the present time in milliseconds, so a
/// reading never changes the timer.
#[derive(Clone, Copy, Debug, PartialEq, Eq, Structural)]
pub struct Timer {
    pub duration: u64,
    pub start_time: u64,
}

/// Whole seconds as milliseconds, held at the largest `u64` where they
/// would not fit.
pub open spec fn secs_to_millis(secs: u64) -> u64 {
    if secs * 1000 > u64::MAX {
        u64::MAX
    } else {
        (secs * 1000) as u64
    }
}

fn millis_of_secs(secs: u64) -> (ms: u64)
    ensures
        ms == secs_to_millis(secs),
{
    if secs > 18446744073709551 {
        u64::MAX
    } else {
        secs * 1000
    }
}

impl Timer {
    /// The moment of the last restart.
    pub open spec fn started_at(&self) -> u64 {
        self.start_time
    }

    /// Milliseconds gone by at `now`; a `now` before the restart counts as
    /// the restart itself.
    pub open spec fn elapsed_at(&self, now: u64) -> int {
        if now >= self.started_at() {
            now - self.started_at()
        } else {
            0
        }
    }

    /// The countdown has run out at `now`.
    pub open spec fn finished_at(&self, now: u64) -> bool {
        self.elapsed_at(now) >= self.duration
    }

    /// The elapsed share of the countdown at `now`, in thousandths, held at
    /// one thousand once the countdown has run out.
    pub open spec fn value_at(&self, now: u64) -> int {
        if self.elapsed_at(now) < self.duration {
            self.elapsed_at(now) * 1000 / (self.duration as int)
        } else {
            1000
        }
    }

    /// A countdown of `duration_millis` milliseconds that starts at `now`.
    pub fn new(duration_millis: u64, now: u64) -> (t: Timer)
        ensures
            t.duration == duration_millis,
            t.started_at() == now,
            duration_millis > 0 ==> !t.finished_at(now),
    {
        Timer { duration: duration_millis, start_time: now }
    }

    /// A countdown of `duration_sec` seconds that starts at `now`.
    pub fn new_sec(duration_sec: u64, now: u64) -> (t: Timer)
        ensures
            t.duration == secs_to_millis(duration_sec),
            t.started_at() == now,
    {
        Timer { duration: millis_of_secs(duration_sec), start_time: now }
    }

    pub fn finished(&self, now: u64) -> (done: bool)
        ensures
            done == self.finished_at(now),
    {
        self.elapsed(now) >= self.duration
    }

    pub fn set_duration_millis(&mut self, duration: u64)
        ensures
            final(self).duration == duration,
            final(self).started_at() == old(self).started_at(),
    {
        self.duration = duration;
    }

    pub fn set_duration(&mut self, duration: u64)
        ensures
            final(self).duration == secs_to_millis(duration),
            final(self).started_at() == old(self).started_at(),
    {
        self.duration = millis_of_secs(duration);
    }

    /// Starts the countdown anew at `now`.
    pub fn restart(&mut self, now: u64)
        ensures
            final(self).duration == old(self).duration,
            final(self).started_at() == now,
            old(self).duration > 0 ==> !final(self).finished_at(now),
            final(self).value_at(now) == if old(self).duration > 0 {
                0int
            } else {
                1000int
            },
    {
        self.start_time = now;
    }

    pub fn elapsed(&self, now: u64) -> (ms: u64)
        ensures
            ms == self.elapsed_at(now),
    {
        if now >= self.start_time {
            now - self.start_time
        } else {
            0
        }
    }

    pub fn value(&self, now: u64) -> (v: u32)
        ensures
            v == self.value_at(now),
            v <= 1000,
            v == 1000 <==> self.finished_at(now),
    {
        let e: u64 = self.elapsed(now);
        if e < self.duration {
            let num: u128 = e as u128 * 1000;
            let den: u128 = self.duration as u128;
            let q: u128 = num / den;
            assert(q < 1000) by (nonlinear_arith)
                requires
                    q == num / den,
                    num == e * 1000,
                    0 <= e < den,
            ;
            q as u32
        } else {
            1000
        }
    }
}

/// A timer with a positive duration has not run out at the moment of its
/// restart, and its value there is zero.
pub proof fn lemma_timer_fresh(t: Timer)
    requires
        t.duration > 0,
    ensures
        !t.finished_at(t.started_at()),
        t.value_at(t.started_at()) == 0,
{
}

/// Once the whole duration has gone by since the restart, the timer has run
/// out and stays so.
pub proof fn lemma_timer_runs_out(t: Timer, now: u64)
    requires
        now >= t.started_at() + t.duration,
    ensures
        t.finished_at(now),
        t.value_at(now) == 1000,
{
}

/// Between restarts the value never decreases as time goes on, and never
/// exceeds one thousand; a timer that has run out stays run out.
pub proof fn lemma_timer_monotone(t: Timer, earlier: u64, later: u64)
    requires
        earlier <= later,
    ensures
        0 <= t.value_at(earlier) <= t.value_at(later) <= 1000,
        t.finished_at(earlier) ==> t.finished_at(later),
{
    let e1 = t.elapsed_at(earlier);
    let e2 = t.elapsed_at(later);
    let d = t.duration as int;
    if e2 < d {
        assert(0 <= e1 * 1000 / d <= e2 * 1000 / d < 1000) by (nonlinear_arith)
            requires
                0 <= e1 <= e2 < d,
        ;
    } else if e1 < d {
        assert(0 <= e1 * 1000 / d < 1000) by (nonlinear_arith)
            requires
                0 <= e1 < d,
        ;
    }
}

} // verus!
