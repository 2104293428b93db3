//! A small keyframe interpolator: breakpoints of value, time and easing,
//! read at the share of the run that has gone by.

use vstd::prelude::*;
use crate::fixed::{lemma_mul_bound, trunc_div};
use crate::stopwatch::plus;
use crate::timer::secs_to_millis;

verus! {

/// How the way between two breakpoints is shaped.
#[derive(Clone, Copy, Debug, PartialEq, Eq, Structural)]
pub enum Easing {
    /// Fast at first, then slowing down.
    EaseOut,
    /// Slow at both ends.
    EaseInOut,
}

/// A breakpoint: the value that is reached at `time`, which is a share of
/// the whole run in thousandths, and the easing of the way that leads on
/// from here.
#[derive(Clone, Copy, Debug, PartialEq, Eq, Structural)]
pub struct Keyframe {
    pub value: i32,
    pub time: u32,
    pub function: Easing,
}

/// Breakpoints played over `duration` milliseconds.
#[derive(Clone, Debug)]
pub struct Tween {
    pub keyframes: Vec<Keyframe>,
    pub duration: u64,
    pub elapsed: u64,
    pub repeating: bool,
}

/// The eased share for a plain share `t`, both in thousandths: a parabola
/// that lands flat for `EaseOut`, two parabolas joined in the middle for
/// `EaseInOut`.
pub open spec fn ease(function: Easing, t: int) -> int {
    match function {
        Easing::EaseOut => 1000 - (1000 - t) * (1000 - t) / 1000,
        Easing::EaseInOut => if t < 500 {
            2 * t * t / 1000
        } else {
            1000 - 2 * (1000 - t) * (1000 - t) / 1000
        },
    }
}

/// The share of the way from `from` to `to` that is done at the share `p` of
/// the whole run, before easing.
pub open spec fn local_share(from: Keyframe, to: Keyframe, p: int) -> int {
    if to.time <= from.time || p >= to.time {
        1000
    } else if p <= from.time {
        0
    } else {
        (p - from.time) * 1000 / (to.time - from.time)
    }
}

/// The value on the way from `from` to `to` at the share `p` of the whole
/// run.
pub open spec fn between(from: Keyframe, to: Keyframe, p: int) -> int {
    from.value + trunc_div(
        (to.value - from.value) * ease(from.function, local_share(from, to, p)),
        1000,
    )
}

/// The value at the share `p`, looked for from breakpoint `i` on: the last
/// breakpoint holds its value, and so does the first before its time.
pub open spec fn value_from(keys: Seq<Keyframe>, i: int, p: int) -> int
    decreases keys.len() - i,
{
    if i < 0 || i >= keys.len() {
        0
    } else if i + 1 >= keys.len() || p <= keys[i].time {
        keys[i].value as int
    } else if p < keys[i + 1].time {
        between(keys[i], keys[i + 1], p)
    } else {
        value_from(keys, i + 1, p)
    }
}

proof fn lemma_ease_bounds(function: Easing, t: int)
    requires
        0 <= t <= 1000,
    ensures
        0 <= ease(function, t) <= 1000,
{
    let u = 1000 - t;
    assert(0 <= u * u <= 1_000_000) by (nonlinear_arith)
        requires
            0 <= u <= 1000,
    ;
    assert(0 <= t * t <= 1_000_000) by (nonlinear_arith)
        requires
            0 <= t <= 1000,
    ;
    if t < 500 {
        assert(t * t <= 250_000) by (nonlinear_arith)
            requires
                0 <= t < 500,
        ;
        assert(2 * t * t == 2 * (t * t)) by (nonlinear_arith);
    } else {
        assert(u * u <= 250_000) by (nonlinear_arith)
            requires
                0 <= u <= 500,
        ;
        assert(2 * (1000 - t) * (1000 - t) == 2 * (u * u)) by (nonlinear_arith)
            requires
                u == 1000 - t,
        ;
    }
}

proof fn lemma_local_share_bounds(from: Keyframe, to: Keyframe, p: int)
    ensures
        0 <= local_share(from, to, p) <= 1000,
{
    if !(to.time <= from.time || p >= to.time) && p > from.time {
        let n = p - from.time;
        let d = to.time - from.time;
        assert(0 <= n * 1000 / d <= 1000) by (nonlinear_arith)
            requires
                0 < n < d,
        ;
    }
}

/// A value on the way between two breakpoints lies between their values.
pub proof fn lemma_between_bounds(from: Keyframe, to: Keyframe, p: int)
    ensures
        from.value <= to.value ==> from.value <= between(from, to, p) <= to.value,
        to.value <= from.value ==> to.value <= between(from, to, p) <= from.value,
{
    lemma_local_share_bounds(from, to, p);
    let e = ease(from.function, local_share(from, to, p));
    lemma_ease_bounds(from.function, local_share(from, to, p));
    let d = to.value - from.value;
    if d >= 0 {
        assert(0 <= d * e <= d * 1000) by (nonlinear_arith)
            requires
                0 <= d,
                0 <= e <= 1000,
        ;
        assert(d * e / 1000 <= d) by (nonlinear_arith)
            requires
                0 <= d * e <= d * 1000,
        ;
        assert(0 <= d * e / 1000) by (nonlinear_arith)
            requires
                0 <= d * e,
        ;
    } else {
        assert(0 <= -(d * e) <= (-d) * 1000) by (nonlinear_arith)
            requires
                d < 0,
                0 <= e <= 1000,
        ;
        let m = -(d * e);
        assert(0 <= m / 1000 <= -d) by (nonlinear_arith)
            requires
                0 <= m <= (-d) * 1000,
        ;
    }
}

fn eased(function: Easing, t: i64) -> (e: i64)
    requires
        0 <= t <= 1000,
    ensures
        e == ease(function, t as int),
        0 <= e <= 1000,
{
    proof {
        lemma_ease_bounds(function, t as int);
        lemma_mul_bound(1000 - t, 1000 - t, 1000, 1000);
        lemma_mul_bound(t as int, t as int, 1000, 1000);
        assert(2 * t * t == 2 * (t * t)) by (nonlinear_arith);
        assert(2 * (1000 - t) * (1000 - t) == 2 * ((1000 - t) * (1000 - t))) by (nonlinear_arith);
    }
    let u: i64 = 1000 - t;
    match function {
        Easing::EaseOut => 1000 - u * u / 1000,
        Easing::EaseInOut => if t < 500 {
            2 * (t * t) / 1000
        } else {
            1000 - 2 * (u * u) / 1000
        },
    }
}

fn value_between(from: Keyframe, to: Keyframe, p: u32) -> (v: i32)
    ensures
        v == between(from, to, p as int),
{
    proof {
        lemma_local_share_bounds(from, to, p as int);
        lemma_between_bounds(from, to, p as int);
    }
    let share: i64 = if to.time <= from.time || p >= to.time {
        1000
    } else if p <= from.time {
        0
    } else {
        ((p - from.time) as i64) * 1000 / ((to.time - from.time) as i64)
    };
    let e: i64 = eased(from.function, share);
    let d: i64 = to.value as i64 - from.value as i64;
    proof {
        lemma_mul_bound(d as int, e as int, 4294967295, 1000);
    }
    let scaled: i64 = d * e;
    let part: i64 = if scaled >= 0 {
        scaled / 1000
    } else {
        -((-scaled) / 1000)
    };
    (from.value as i64 + part) as i32
}

impl Keyframe {
    pub fn new(value: i32, time: u32, function: Easing) -> (k: Keyframe)
        ensures
            k == (Keyframe { value, time, function }),
    {
        Keyframe { value, time, function }
    }
}

impl Tween {
    /// The share of the run that has gone by, in thousandths; a run of no
    /// length is over at once.
    pub open spec fn progress(&self) -> int {
        if self.duration == 0 || self.elapsed >= self.duration {
            1000
        } else {
            self.elapsed * 1000 / (self.duration as int)
        }
    }

    /// The value that the breakpoints give at this point of the run; no
    /// breakpoints give zero.
    pub open spec fn value_spec(&self) -> int {
        value_from(self.keyframes@, 0, self.progress())
    }

    /// A run that does not repeat is over once its time has gone by.
    pub open spec fn finished_spec(&self) -> bool {
        !self.repeating && self.elapsed >= self.duration
    }

    /// The time gone by after `delta` more milliseconds: a repeating run
    /// starts over at its end, another stays there.
    pub open spec fn elapsed_after(&self, delta: u64) -> int {
        let sum = plus(self.elapsed, delta);
        if sum < self.duration {
            sum as int
        } else if self.repeating && self.duration > 0 {
            (sum % self.duration) as int
        } else {
            self.duration as int
        }
    }

    /// The run after `delta` more milliseconds.
    pub open spec fn advanced(self, delta: u64) -> Tween {
        Tween { elapsed: self.elapsed_after(delta) as u64, ..self }
    }

    /// A run over the breakpoints that lasts `duration` seconds and begins
    /// `start` seconds in.
    pub fn from_keyframes(keyframes: Vec<Keyframe>, start: u64, duration: u64, repeating: bool) -> (t:
        Tween)
        ensures
            t.keyframes@ == keyframes@,
            t.duration == secs_to_millis(duration),
            t.elapsed == secs_to_millis(start),
            t.repeating == repeating,
    {
        let d: u64 = if duration > 18446744073709551 {
            u64::MAX
        } else {
            duration * 1000
        };
        let e: u64 = if start > 18446744073709551 {
            u64::MAX
        } else {
            start * 1000
        };
        Tween { keyframes, duration: d, elapsed: e, repeating }
    }

    /// A run over the breakpoints that lasts `duration` milliseconds.
    pub fn over_millis(keyframes: Vec<Keyframe>, duration: u64, repeating: bool) -> (t: Tween)
        ensures
            t.keyframes@ == keyframes@,
            t.duration == duration,
            t.elapsed == 0,
            t.repeating == repeating,
    {
        Tween { keyframes, duration, elapsed: 0, repeating }
    }

    /// Lets `delta` milliseconds go by.
    pub fn update(&mut self, delta: u64)
        ensures
            *final(self) == old(self).advanced(delta),
    {
        let sum: u64 = if self.elapsed > u64::MAX - delta {
            u64::MAX
        } else {
            self.elapsed + delta
        };
        if sum < self.duration {
            self.elapsed = sum;
        } else if self.repeating && self.duration > 0 {
            self.elapsed = sum % self.duration;
        } else {
            self.elapsed = self.duration;
        }
    }

    pub fn finished(&self) -> (done: bool)
        ensures
            done == self.finished_spec(),
    {
        !self.repeating && self.elapsed >= self.duration
    }

    /// Sets the run back to its beginning.
    pub fn restart(&mut self)
        ensures
            *final(self) == (Tween { elapsed: 0, ..*old(self) }),
    {
        self.elapsed = 0;
    }

    /// The share of the run that has gone by, in thousandths.
    pub fn share(&self) -> (p: u32)
        ensures
            p == self.progress(),
            p <= 1000,
    {
        if self.duration == 0 || self.elapsed >= self.duration {
            1000
        } else {
            let num: u128 = self.elapsed as u128 * 1000;
            let den: u128 = self.duration as u128;
            let q: u128 = num / den;
            assert(q < 1000) by (nonlinear_arith)
                requires
                    q == num / den,
                    num == self.elapsed * 1000,
                    0 <= self.elapsed < den,
            ;
            q as u32
        }
    }

    /// The value at this point of the run.
    pub fn value(&self) -> (v: i32)
        ensures
            v == self.value_spec(),
    {
        let p: u32 = self.share();
        let n: usize = self.keyframes.len();
        if n == 0 {
            return 0;
        }
        let mut i: usize = 0;
        while i + 1 < n && p > self.keyframes[i].time && p >= self.keyframes[i + 1].time
            invariant
                i < n,
                n == self.keyframes@.len(),
                value_from(self.keyframes@, i as int, p as int) == self.value_spec(),
            decreases n - i,
        {
            i += 1;
        }
        if i + 1 >= n || p <= self.keyframes[i].time {
            self.keyframes[i].value
        } else {
            value_between(self.keyframes[i], self.keyframes[i + 1], p)
        }
    }
}

} // verus!
