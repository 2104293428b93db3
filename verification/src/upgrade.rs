//! The upgrade catalog: which upgrades there are, what each one changes, and
//! how two of them are offered at a level-up.

use vstd::prelude::*;
use crate::director::{clamp_i64, Director};
use crate::fixed::{clamp_i32, trunc_div};
use crate::player::Player;
use crate::random::{
    lemma_stream_is_odd, pcg32_sample, pcg32_seed, sample_inclusive, seeded_generator,
};
use crate::timer::Timer;

verus! {

/// The upgrades that a level-up can offer.
#[derive(Clone, Copy, Debug, PartialEq, Eq, Structural)]
pub enum Upgrade {
    /// Walk a tenth of the usual speed faster.
    SpeedUpgrade,
    /// Wait a tenth of the full wait less between shots.
    FireRateUpgrade,
    /// Get two more points of health back at each regeneration.
    RecoveryUpgrade,
    /// Dash a twentieth faster.
    DashUpgrade,
    /// Wait a twentieth less for each regeneration.
    FasterRecoveryUpgrade,
    /// Stay invulnerable a tenth longer after a blow.
    IframeUpgrade,
}

/// The upgrade at place `index` of the catalog; every place past the fifth
/// holds the last upgrade.
pub open spec fn catalog(index: u32) -> Upgrade {
    if index == 0 {
        Upgrade::SpeedUpgrade
    } else if index == 1 {
        Upgrade::DashUpgrade
    } else if index == 2 {
        Upgrade::FasterRecoveryUpgrade
    } else if index == 3 {
        Upgrade::IframeUpgrade
    } else if index == 4 {
        Upgrade::RecoveryUpgrade
    } else {
        Upgrade::FireRateUpgrade
    }
}

/// The place of the second offer: `second` counts the places that are left
/// once `first` is taken out.
pub open spec fn second_place(first: u32, second: u32) -> u32 {
    if second >= first && second < u32::MAX {
        (second + 1) as u32
    } else {
        second
    }
}

/// The two offers that the draws `first` and `second` stand for.
pub open spec fn offers(first: u32, second: u32) -> Seq<Upgrade> {
    seq![catalog(first), catalog(second_place(first, second))]
}

/// A duration less its twentieth, the twentieth rounded to the nearest
/// millisecond.
pub open spec fn shortened(duration: u64) -> int {
    duration - (duration + 10) / 20
}

/// A duration and its tenth, the tenth rounded to the nearest millisecond,
/// held at the largest `u64`.
pub open spec fn lengthened(duration: u64) -> int {
    let sum = duration + (duration + 5) / 10;
    if sum > u64::MAX {
        u64::MAX as int
    } else {
        sum
    }
}

pub fn upgrade_at(index: u32) -> (u: Upgrade)
    ensures
        u == catalog(index),
{
    match index {
        0 => Upgrade::SpeedUpgrade,
        1 => Upgrade::DashUpgrade,
        2 => Upgrade::FasterRecoveryUpgrade,
        3 => Upgrade::IframeUpgrade,
        4 => Upgrade::RecoveryUpgrade,
        _ => Upgrade::FireRateUpgrade,
    }
}

/// The two offers for a first draw among all six places and a second draw
/// among the five that are left.
pub fn upgrades_from_draws(first: u32, second: u32) -> (picked: Vec<Upgrade>)
    ensures
        picked@ == offers(first, second),
        first <= 5 && second <= 4 ==> picked@[0] != picked@[1],
{
    let other: u32 = if second >= first && second < u32::MAX {
        second + 1
    } else {
        second
    };
    let mut picked: Vec<Upgrade> = Vec::new();
    picked.push(upgrade_at(first));
    picked.push(upgrade_at(other));
    assert(picked@ =~= offers(first, second));
    picked
}

/// Offers two different upgrades, drawn with a generator that is seeded
/// with `seed` on the stream `inc`.
pub fn pick_random_upgrades(seed: u64, inc: u64) -> (picked: Vec<Upgrade>)
    ensures
        picked@ == ({
            let gen = pcg32_seed(seed, inc);
            let first = pcg32_sample(gen.0, gen.1, 0, 5);
            let second = pcg32_sample(first.1, gen.1, 0, 4);
            offers(first.0, second.0)
        }),
        picked@.len() == 2,
        picked@[0] != picked@[1],
{
    let gen = seeded_generator(seed, inc);
    proof {
        lemma_stream_is_odd(inc);
    }
    let first = sample_inclusive(gen.0, gen.1, 0, 5);
    let second = sample_inclusive(first.1, gen.1, 0, 4);
    upgrades_from_draws(first.0, second.0)
}

impl Upgrade {
    /// The player with this upgrade.
    pub open spec fn on_player(self, p: Player) -> Player {
        match self {
            Upgrade::SpeedUpgrade => Player {
                speed_bonus: clamp_i32(p.speed_bonus + 100) as i32,
                ..p
            },
            Upgrade::RecoveryUpgrade => Player { regen: clamp_i64(p.regen + 2000) as i64, ..p },
            Upgrade::DashUpgrade => Player {
                dash_speed: clamp_i32(p.dash_speed + trunc_div(p.dash_speed * 5, 100)) as i32,
                ..p
            },
            Upgrade::FasterRecoveryUpgrade => Player {
                regen_timer: Timer {
                    duration: shortened(p.regen_timer.duration) as u64,
                    start_time: p.regen_timer.start_time,
                },
                ..p
            },
            Upgrade::IframeUpgrade => Player {
                inv_timer: Timer {
                    duration: lengthened(p.inv_timer.duration) as u64,
                    start_time: p.inv_timer.start_time,
                },
                ..p
            },
            Upgrade::FireRateUpgrade => p,
        }
    }

    /// The director with this upgrade.
    pub open spec fn on_director(self, d: Director) -> Director {
        match self {
            Upgrade::FireRateUpgrade => Director {
                bullet_cooldown_bonus: clamp_i64(d.bullet_cooldown_bonus - 100) as i64,
                ..d
            },
            _ => d,
        }
    }

    /// Puts this upgrade into effect.
    pub fn apply(self, player: &mut Player, director: &mut Director)
        ensures
            *final(player) == self.on_player(*old(player)),
            *final(director) == self.on_director(*old(director)),
            old(player).wf() ==> final(player).wf(),
    {
        match self {
            Upgrade::SpeedUpgrade => {
                player.speed_bonus = if player.speed_bonus > i32::MAX - 100 {
                    i32::MAX
                } else {
                    player.speed_bonus + 100
                };
            },
            Upgrade::FireRateUpgrade => {
                director.bullet_cooldown_bonus = if director.bullet_cooldown_bonus < i64::MIN
                    + 100 {
                    i64::MIN
                } else {
                    director.bullet_cooldown_bonus - 100
                };
            },
            Upgrade::RecoveryUpgrade => {
                player.regen = if player.regen > i64::MAX - 2000 {
                    i64::MAX
                } else {
                    player.regen + 2000
                };
            },
            Upgrade::DashUpgrade => {
                let s: i64 = player.dash_speed as i64;
                let part: i64 = if s >= 0 {
                    s * 5 / 100
                } else {
                    -((-s) * 5 / 100)
                };
                player.dash_speed = crate::fixed::saturate((s + part) as i128);
            },
            Upgrade::FasterRecoveryUpgrade => {
                let d: u128 = player.regen_timer.duration as u128;
                let part: u128 = (d + 10) / 20;
                player.regen_timer.set_duration_millis((d - part) as u64);
            },
            Upgrade::IframeUpgrade => {
                let d: u128 = player.inv_timer.duration as u128;
                let sum: u128 = d + (d + 5) / 10;
                let capped: u64 = if sum > u64::MAX as u128 {
                    u64::MAX
                } else {
                    sum as u64
                };
                player.inv_timer.set_duration_millis(capped);
            },
        }
    }

    /// The name that the upgrade goes by.
    pub fn get_name(&self) -> (name: &'static str)
        ensures
            name@ == match *self {
                Upgrade::SpeedUpgrade => "Speed"@,
                Upgrade::FireRateUpgrade => "FireRate"@,
                Upgrade::RecoveryUpgrade => "Recovery"@,
                Upgrade::DashUpgrade => "Dash"@,
                Upgrade::FasterRecoveryUpgrade => "FasterRecovery"@,
                Upgrade::IframeUpgrade => "MoreIframes"@,
            },
    {
        match self {
            Upgrade::SpeedUpgrade => "Speed",
            Upgrade::FireRateUpgrade => "FireRate",
            Upgrade::RecoveryUpgrade => "Recovery",
            Upgrade::DashUpgrade => "Dash",
            Upgrade::FasterRecoveryUpgrade => "FasterRecovery",
            Upgrade::IframeUpgrade => "MoreIframes",
        }
    }
}

} // verus!
