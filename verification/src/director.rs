//! Progression: the kill count, the difficulty tier that it raises, the
//! experience that a new enemy is worth, and the population caps.

use vstd::prelude::*;
use crate::fixed::trunc_div;
use crate::timer::Timer;

verus! {

/// Kills that raise the tier by one.
pub const KILLS_PER_TIER: u64 = 15;

/// The least experience that a kill is worth, in thousandths.
pub const MIN_GIVEN_XP: i64 = 3000;

/// What drives the difficulty of a run.
#[derive(Clone, Copy, Debug, PartialEq, Eq, Structural)]
pub struct Director {
    /// The difficulty tier; a run starts at one.
    pub progression: u32,
    pub kill_count: u64,
    /// The experience from which the worth of a new enemy is derived, in
    /// thousandths.
    pub base_given_xp: i64,
    /// The wait between two shots of the player.
    pub bullet_cooldown: Timer,
    /// The share of the full wait that is left after upgrades, in
    /// thousandths.
    pub bullet_cooldown_bonus: i64,
}

/// `v` brought into the range of `i64`.
pub open spec fn clamp_i64(v: int) -> int {
    if v < i64::MIN {
        i64::MIN as int
    } else if v > i64::MAX {
        i64::MAX as int
    } else {
        v
    }
}

pub fn saturate_i64(v: i128) -> (r: i64)
    ensures
        r == clamp_i64(v as int),
{
    if v < -9223372036854775808 {
        -9223372036854775808
    } else if v > 9223372036854775807 {
        9223372036854775807
    } else {
        v as i64
    }
}

/// The tier after a kill that brought the count to `kill_count`: every
/// fifteenth kill raises it by one.
pub open spec fn tier_after_kill(progression: u32, kill_count: u64) -> u32 {
    if kill_count > 0 && kill_count % 15 == 0 && progression < u32::MAX {
        (progression + 1) as u32
    } else {
        progression
    }
}

/// The base experience after one decay step at `kill_count` kills: a tenth
/// of the base and a fifth of a point per kill are taken off, and the base
/// is never left under three points.
pub open spec fn decayed_base_xp(base: i64, kill_count: u64) -> int {
    let raw = base - trunc_div(base as int, 10) - 200 * kill_count;
    if raw < 3000 {
        3000
    } else {
        raw
    }
}

/// The experience that an enemy spawned now is worth: the base less a tenth
/// of it, less half a point per kill, less four points per tier, and never
/// under three points.
pub open spec fn spawn_xp(base: i64, kill_count: u64, progression: u32) -> int {
    let raw = base - trunc_div(base as int, 10) - 500 * kill_count - 4000 * progression;
    if raw < 3000 {
        3000
    } else {
        raw
    }
}

/// How many ground enemies may live at a tier.
pub open spec fn ground_cap(progression: u32) -> int {
    5 * progression
}

/// How many flying enemies may live at a tier.
pub open spec fn flying_cap(progression: u32) -> int {
    2 * progression
}

/// How many turrets may live at a tier: none below the third.
pub open spec fn turret_cap(progression: u32) -> int {
    if progression >= 3 {
        2 * progression
    } else {
        0
    }
}

/// The wait between two shots in milliseconds: three seconds times the
/// bonus, no wait at all for a bonus below zero, and never more than a
/// `u64` holds.
pub open spec fn shot_wait(bonus: i64) -> int {
    if bonus <= 0 {
        0
    } else if 3 * bonus > u64::MAX {
        u64::MAX as int
    } else {
        3 * bonus
    }
}

/// Raises the tier where the kill count has reached a multiple of fifteen.
pub fn update_progress_level(progression: &mut u32, kill_count: u64)
    ensures
        *final(progression) == tier_after_kill(*old(progression), kill_count),
        *final(progression) >= *old(progression),
{
    if kill_count > 0 && kill_count % 15 == 0 && *progression < u32::MAX {
        *progression = *progression + 1;
    }
}

/// One decay step of the base experience: the base falls, but never under
/// three points, and a base that is under three points is raised to them.
///
/// Nothing in the library takes this step by itself. `Director::record_kill`
/// does not: what a new enemy is worth already falls with every kill and
/// every tier through `spawn_xp`, so a session keeps its base as it is. The
/// step is there for a caller that wants the base itself to fall as well,
/// and may be taken as often as that caller likes.
pub fn update_given_xp(base_given_xp: &mut i64, kill_count: u64)
    ensures
        *final(base_given_xp) == decayed_base_xp(*old(base_given_xp), kill_count),
        3000 <= *final(base_given_xp),
        *old(base_given_xp) >= 3000 ==> *final(base_given_xp) <= *old(base_given_xp),
{
    let b: i128 = *base_given_xp as i128;
    let tenth: i128 = if b >= 0 {
        b / 10
    } else {
        -((-b) / 10)
    };
    let raw: i128 = b - tenth - 200 * (kill_count as i128);
    if raw < 3000 {
        *base_given_xp = 3000;
    } else {
        *base_given_xp = raw as i64;
    }
}

impl Director {
    /// The director of a fresh run: tier one, no kills, fifty points of base
    /// experience, and a first shot after seven tenths of a second.
    pub fn new(now: u64) -> (d: Director)
        ensures
            d == (Director {
                progression: 1,
                kill_count: 0,
                base_given_xp: 50_000,
                bullet_cooldown: Timer { duration: 700, start_time: now },
                bullet_cooldown_bonus: 1000,
            }),
    {
        Director {
            progression: 1,
            kill_count: 0,
            base_given_xp: 50_000,
            bullet_cooldown: Timer::new(700, now),
            bullet_cooldown_bonus: 1000,
        }
    }

    /// The director after one more kill.
    pub open spec fn after_kill(self) -> Director {
        let kills = if self.kill_count < u64::MAX {
            (self.kill_count + 1) as u64
        } else {
            self.kill_count
        };
        Director {
            progression: tier_after_kill(self.progression, kills),
            kill_count: kills,
            ..self
        }
    }

    /// Counts one kill and raises the tier where it is due. The base
    /// experience is left as it is.
    pub fn record_kill(&mut self)
        ensures
            *final(self) == old(self).after_kill(),
            final(self).progression >= old(self).progression,
    {
        if self.kill_count < u64::MAX {
            self.kill_count = self.kill_count + 1;
        }
        update_progress_level(&mut self.progression, self.kill_count);
    }

    /// The experience that an enemy spawned now is worth.
    pub fn given_xp(&self) -> (xp: i64)
        ensures
            xp == spawn_xp(self.base_given_xp, self.kill_count, self.progression),
            xp >= 3000,
    {
        let b: i128 = self.base_given_xp as i128;
        let tenth: i128 = if b >= 0 {
            b / 10
        } else {
            -((-b) / 10)
        };
        let raw: i128 = b - tenth - 500 * (self.kill_count as i128)
            - 4000 * (self.progression as i128);
        if raw < 3000 {
            3000
        } else {
            raw as i64
        }
    }

    /// Room is left for one more ground enemy beside `count` living ones.
    pub fn ground_room(&self, count: usize) -> (room: bool)
        ensures
            room == (count < ground_cap(self.progression)),
    {
        (count as u64) < 5 * (self.progression as u64)
    }

    /// Room is left for one more flying enemy beside `count` living ones.
    pub fn flying_room(&self, count: usize) -> (room: bool)
        ensures
            room == (count < flying_cap(self.progression)),
    {
        (count as u64) < 2 * (self.progression as u64)
    }

    /// Room is left for one more turret beside `count` living ones.
    pub fn turret_room(&self, count: usize) -> (room: bool)
        ensures
            room == (count < turret_cap(self.progression)),
    {
        self.progression >= 3 && (count as u64) < 2 * (self.progression as u64)
    }

    /// The wait before the next shot, in milliseconds.
    pub fn shot_wait_millis(&self) -> (ms: u64)
        ensures
            ms == shot_wait(self.bullet_cooldown_bonus),
    {
        if self.bullet_cooldown_bonus <= 0 {
            0
        } else if self.bullet_cooldown_bonus > 6148914691236517205 {
            u64::MAX
        } else {
            3 * (self.bullet_cooldown_bonus as u64)
        }
    }
}

} // verus!
