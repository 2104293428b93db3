//! Two session clocks: a lap stopwatch read against sampled time, and an
//! accumulator that is advanced by frame ticks.

use vstd::prelude::*;

verus! {

/// Milliseconds from `from` to `to`; zero where `to` lies before `from`.
pub open spec fn since(from: u64, to: u64) -> u64 {
    if to >= from {
        (to - from) as u64
    } else {
        0
    }
}

/// `a - b`, held at zero.
pub open spec fn minus(a: u64, b: u64) -> u64 {
    if a >= b {
        (a - b) as u64
    } else {
        0
    }
}

/// `a + b`, held at the largest `u64`.
pub open spec fn plus(a: u64, b: u64) -> u64 {
    if a + b > u64::MAX {
        u64::MAX
    } else {
        (a + b) as u64
    }
}

fn sub_floor(a: u64, b: u64) -> (r: u64)
    ensures
        r == minus(a, b),
        r == since(b, a),
{
    if a >= b {
        a - b
    } else {
        0
    }
}

fn add_ceil(a: u64, b: u64) -> (r: u64)
    ensures
        r == plus(a, b),
{
    if a > u64::MAX - b {
        u64::MAX
    } else {
        a + b
    }
}

/// Whether a lap stopwatch runs, and since when.
#[derive(Clone, Copy, Debug, PartialEq, Eq, Structural)]
pub enum State {
    Running { lap_start_time: u64 },
    Stopped { lap_start_time: u64, suspend_time: u64 },
}

/// A stopwatch with laps, read against the time that the caller samples.
#[derive(Clone, Copy, Debug, PartialEq, Eq, Structural)]
pub struct StopWatch {
    pub start_time: u64,
    pub state: State,
    pub cur_suspend: u64,
    pub total_suspend: u64,
}

/// What a stopwatch shows at one reading.
#[derive(Clone, Copy, Debug, PartialEq, Eq, Structural)]
pub struct Split {
    /// Time run since the stopwatch was started, suspensions left out.
    pub split: u64,
    /// Time run since the reading before, suspensions left out.
    pub lap: u64,
}

impl StopWatch {
    /// The stopwatch runs.
    pub open spec fn is_running(&self) -> bool {
        self.state is Running
    }

    /// What a reading at `now` shows.
    pub open spec fn reading(&self, now: u64) -> Split {
        match self.state {
            State::Running { lap_start_time } => Split {
                split: minus(since(self.start_time, now), self.total_suspend),
                lap: minus(since(lap_start_time, now), self.cur_suspend),
            },
            State::Stopped { lap_start_time, suspend_time } => Split {
                split: minus(since(self.start_time, suspend_time), self.total_suspend),
                lap: minus(since(lap_start_time, suspend_time), self.cur_suspend),
            },
        }
    }

    /// The stopwatch after a reading at `now`: a running one begins a new
    /// lap, a stopped one is left as it is.
    pub open spec fn after_reading(&self, now: u64) -> StopWatch {
        match self.state {
            State::Running { lap_start_time } => StopWatch {
                start_time: self.start_time,
                state: State::Running { lap_start_time: now },
                cur_suspend: 0,
                total_suspend: self.total_suspend,
            },
            State::Stopped { lap_start_time, suspend_time } => *self,
        }
    }

    /// Starts a stopwatch at `now`.
    pub fn start(now: u64) -> (sw: StopWatch)
        ensures
            sw == (StopWatch {
                start_time: now,
                state: State::Running { lap_start_time: now },
                cur_suspend: 0,
                total_suspend: 0,
            }),
    {
        StopWatch {
            start_time: now,
            state: State::Running { lap_start_time: now },
            cur_suspend: 0,
            total_suspend: 0,
        }
    }

    /// Suspends a running stopwatch at `now`; a stopped one is left alone.
    pub fn suspend(&mut self, now: u64)
        ensures
            *final(self) == (match old(self).state {
                State::Running { lap_start_time } => StopWatch {
                    start_time: old(self).start_time,
                    state: State::Stopped { lap_start_time, suspend_time: now },
                    cur_suspend: old(self).cur_suspend,
                    total_suspend: old(self).total_suspend,
                },
                State::Stopped { lap_start_time, suspend_time } => *old(self),
            }),
    {
        match self.state {
            State::Running { lap_start_time } => {
                self.state = State::Stopped { lap_start_time, suspend_time: now };
            },
            State::Stopped { lap_start_time, suspend_time } => {},
        }
    }

    /// Resumes a stopped stopwatch at `now`, and adds the time since its
    /// suspension to what both the lap and the whole run leave out; a
    /// running one is left alone.
    pub fn resume(&mut self, now: u64)
        ensures
            *final(self) == (match old(self).state {
                State::Running { lap_start_time } => *old(self),
                State::Stopped { lap_start_time, suspend_time } => StopWatch {
                    start_time: old(self).start_time,
                    state: State::Running { lap_start_time },
                    cur_suspend: plus(old(self).cur_suspend, since(suspend_time, now)),
                    total_suspend: plus(old(self).total_suspend, since(suspend_time, now)),
                },
            }),
    {
        match self.state {
            State::Running { lap_start_time } => {},
            State::Stopped { lap_start_time, suspend_time } => {
                let pause: u64 = sub_floor(now, suspend_time);
                self.cur_suspend = add_ceil(self.cur_suspend, pause);
                self.total_suspend = add_ceil(self.total_suspend, pause);
                self.state = State::Running { lap_start_time };
            },
        }
    }

    /// Reads the stopwatch at `now` and, where it runs, begins a new lap.
    pub fn split(&mut self, now: u64) -> (s: Split)
        ensures
            s == old(self).reading(now),
            *final(self) == old(self).after_reading(now),
    {
        match self.state {
            State::Running { lap_start_time } => {
                let lap: u64 = sub_floor(sub_floor(now, lap_start_time), self.cur_suspend);
                let split: u64 = sub_floor(sub_floor(now, self.start_time), self.total_suspend);
                self.state = State::Running { lap_start_time: now };
                self.cur_suspend = 0;
                Split { split, lap }
            },
            State::Stopped { lap_start_time, suspend_time } => {
                let lap: u64 = sub_floor(
                    sub_floor(suspend_time, lap_start_time),
                    self.cur_suspend,
                );
                let split: u64 = sub_floor(
                    sub_floor(suspend_time, self.start_time),
                    self.total_suspend,
                );
                Split { split, lap }
            },
        }
    }
}

/// The session clock: it gathers the frame ticks that reach it while it is
/// not paused.
#[derive(Clone, Copy, Debug, PartialEq, Eq, Structural)]
pub struct Stopwatch {
    pub elapsed: u64,
    pub paused: bool,
}

impl Stopwatch {
    /// A running clock that shows zero.
    pub fn new() -> (sw: Stopwatch)
        ensures
            sw == (Stopwatch { elapsed: 0, paused: false }),
    {
        Stopwatch { elapsed: 0, paused: false }
    }

    /// Milliseconds gathered so far.
    pub fn elapsed(&self) -> (ms: u64)
        ensures
            ms == self.elapsed,
    {
        self.elapsed
    }

    pub fn paused(&self) -> (p: bool)
        ensures
            p == self.paused,
    {
        self.paused
    }

    /// Adds `delta` milliseconds unless the clock is paused.
    pub fn tick(&mut self, delta: u64)
        ensures
            final(self).paused == old(self).paused,
            final(self).elapsed == if old(self).paused {
                old(self).elapsed
            } else {
                plus(old(self).elapsed, delta)
            },
    {
        if !self.paused {
            self.elapsed = add_ceil(self.elapsed, delta);
        }
    }

    pub fn pause(&mut self)
        ensures
            final(self).paused,
            final(self).elapsed == old(self).elapsed,
    {
        self.paused = true;
    }

    pub fn unpause(&mut self)
        ensures
            !final(self).paused,
            final(self).elapsed == old(self).elapsed,
    {
        self.paused = false;
    }

    /// Sets the clock back to zero without touching its pause.
    pub fn reset(&mut self)
        ensures
            final(self).paused == old(self).paused,
            final(self).elapsed == 0,
    {
        self.elapsed = 0;
    }
}

} // verus!
