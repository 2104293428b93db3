//! The run as mathematics: everything that a session holds, and what each
//! part of a frame makes of it.

use vstd::prelude::*;
use crate::bats::{after_bat_touches, bat_crashes, bat_marks, bat_spawn_point, BatEnemy};
use crate::bullets::{aimed, fired, is_spark, trail_points, trailed, Bullet};
use crate::combat::{
    after_shots, buried, flying_graves, flying_tally, ground_graves, ground_tally, hit_marks,
    hp_after, shaken, shot_lands, shot_marks, spent_on, Tally,
};
use crate::damage_popup::{popped, DamagePopup, Mark};
use crate::particles::{Particle, ParticleType};
use crate::remnants::DeadEnemy;
use crate::director::{flying_cap, ground_cap, shot_wait, spawn_xp, turret_cap, Director};
use crate::enemies::{after_touches, shake_plus, shoved_along, spawn_point, Enemies};
use crate::player::Player;
use crate::pool::{lemma_survivors, survivors};
use crate::random::{pcg32_sample, pcg32_seed};
use crate::spatial::Position;
use crate::stopwatch::{plus, Stopwatch};
use crate::timer::Timer;
use crate::towers::{shots, tower_spawn_point, TowerEnemy};
use crate::tween::{Easing, Keyframe, Tween};
use crate::upgrade::{offers, Upgrade};
use crate::direction::HeldKeys;

verus! {

/// The phases of a session.
#[derive(Clone, Copy, Debug, PartialEq, Eq, Structural)]
pub enum LevelState {
    PreGame,
    LevelUp,
    InGame,
    StageCleared,
}

/// What the player asks for in one frame: the direction keys as they are
/// held, and the buttons that were pressed since the frame before.
#[derive(Clone, Copy, Debug, PartialEq, Eq, Structural)]
pub struct InputSnapshot {
    pub keys: HeldKeys,
    pub dash: bool,
    pub menu_left: bool,
    pub menu_right: bool,
    pub confirm: bool,
    pub restart: bool,
}

/// What a session holds: the actors of the play, and the pools that are
/// only there to be looked at.
#[verifier::ext_equal]
pub struct Stage {
    pub player: Player,
    pub director: Director,
    pub enemies: Seq<Enemies>,
    pub bats: Seq<BatEnemy>,
    pub towers: Seq<TowerEnemy>,
    pub bullets: Seq<Bullet>,
    pub enemy_bullets: Seq<Bullet>,
    pub upgrades: Seq<Upgrade>,
    pub choosen_upgrade_index: i32,
    pub sw: Stopwatch,
    pub shake: i64,
    pub level_state: LevelState,
    pub death_tweener: Tween,
    pub tweener: Tween,
    pub remnants: Seq<DeadEnemy>,
    pub popups: Seq<DamagePopup>,
    pub particles: Seq<Particle>,
    pub intro_particles: Seq<Particle>,
    pub upgrade_menu_tween: Tween,
}

/// The bounce of the chosen offer: up four pixels and back within a
/// second, again and again.
pub open spec fn bounce_keys() -> Seq<Keyframe> {
    seq![
        Keyframe { value: 0, time: 0, function: Easing::EaseOut },
        Keyframe { value: 4000, time: 500, function: Easing::EaseOut },
        Keyframe { value: 0, time: 1000, function: Easing::EaseOut },
    ]
}

/// A way from nothing to `to`, slow at both ends.
pub open spec fn swell_keys(to: i32) -> Seq<Keyframe> {
    seq![
        Keyframe { value: 0, time: 0, function: Easing::EaseInOut },
        Keyframe { value: to, time: 1000, function: Easing::EaseInOut },
    ]
}

/// The two offers that a generator seeded with `seed` on the stream `inc`
/// leads to.
pub open spec fn drawn_offers(seed: u64, inc: u64) -> Seq<Upgrade> {
    let gen = pcg32_seed(seed, inc);
    let first = pcg32_sample(gen.0, gen.1, 0, 5);
    let second = pcg32_sample(first.1, gen.1, 0, 4);
    offers(first.0, second.0)
}

impl Stage {
    /// The stage once the clock has ticked and the menu choice is back on
    /// the first offer.
    pub open spec fn ticked(self, delta: u32) -> Stage {
        Stage {
            sw: Stopwatch {
                elapsed: if self.sw.paused {
                    self.sw.elapsed
                } else {
                    plus(self.sw.elapsed, delta as u64)
                },
                paused: self.sw.paused,
            },
            choosen_upgrade_index: 0,
            ..self
        }
    }

    /// The player once the dash button and the direction keys have had
    /// their say: a dash begins, or the player walks.
    pub open spec fn steered(self, input: InputSnapshot, delta: u32, now: u64) -> Player {
        let p = self.player.dash_begun(input.dash, input.keys, now);
        if p.is_dashing {
            p
        } else {
            Player { position: p.walked(delta, input.keys), flip_x: p.facing(input.keys), ..p }
        }
    }

    /// The ground enemies once they have homed in on `target` and shoved
    /// one another.
    pub open spec fn closed_in(self, target: Position, delta: u32) -> Seq<Enemies> {
        let homed = self.enemies.map_values(|e: Enemies| e.homed(target, delta));
        Seq::new(
            homed.len(),
            |i: int| Enemies { position: shoved_along(homed[i].position, homed, i + 1), ..homed[i] },
        )
    }

    /// The stage once the actors of a living player have moved: the player
    /// steers, the ground enemies close in and touch, the flying enemies
    /// fly and touch, the turrets shoot, and all bullets fly. Remnants,
    /// popups, particles and the menu are left alone here.
    pub open spec fn moved(self, input: InputSnapshot, delta: u32, now: u64) -> Stage {
        if self.player.active {
            let steered = self.steered(input, delta, now);
            let target = steered.position;
            let ground = self.closed_in(target, delta);
            let touched = after_touches(ground, 0, steered, self.shake, now);
            let flown = self.bats.map_values(|b: BatEnemy| b.flown(delta));
            let crashed = after_bat_touches(flown, flown.len() as int, touched.0, touched.1, now);
            Stage {
                player: crashed.0,
                shake: crashed.1,
                enemies: ground,
                bats: Seq::new(
                    flown.len(),
                    |i: int|
                        BatEnemy {
                            hp: if bat_crashes(flown, i, touched.0, touched.1, now) {
                                (flown[i].hp - 1000) as i64
                            } else {
                                flown[i].hp
                            },
                            ..flown[i]
                        },
                ),
                towers: self.towers.map_values(|t: TowerEnemy| t.updated(target, now)),
                bullets: self.bullets.map_values(|b: Bullet| b.flown(delta)),
                enemy_bullets: (self.enemy_bullets + shots(
                    self.towers,
                    self.towers.len() as int,
                    target,
                    now,
                )).map_values(|b: Bullet| b.flown(delta)),
                ..self
            }
        } else {
            self
        }
    }

    /// The stage once the remnants have drifted on, away from where the
    /// player stands, a dash has carried the player on, and every animation
    /// has run for the frame.
    pub open spec fn shown(self, delta: u32, now: u64) -> Stage {
        let dashed = self.player.dashed(delta, now);
        Stage {
            player: Player { anims: dashed.anims.advanced(delta as u64), ..dashed },
            enemies: self.enemies.map_values(|e: Enemies| e.animated(delta as u64)),
            bats: self.bats.map_values(|b: BatEnemy| b.animated(delta as u64)),
            remnants: self.remnants.map_values(
                |d: DeadEnemy| d.updated(self.player.position.x, delta),
            ),
            ..self
        }
    }

    /// The stage after the first part of a frame of the run, but for its
    /// popups and its particles, which are here as they were: `acted` says
    /// what becomes of them.
    pub open spec fn advanced(self, input: InputSnapshot, delta: u32, now: u64) -> Stage {
        self.moved(input, delta, now).shown(delta, now)
    }

    /// The losses that the first part of a frame shows: one point over each
    /// flying enemy that crashes into the player with health left.
    pub open spec fn crash_marks(self, input: InputSnapshot, delta: u32, now: u64) -> Seq<Mark> {
        if self.player.active {
            let steered = self.steered(input, delta, now);
            let ground = self.closed_in(steered.position, delta);
            let touched = after_touches(ground, 0, steered, self.shake, now);
            let flown = self.bats.map_values(|b: BatEnemy| b.flown(delta));
            bat_marks(flown, flown.len() as int, touched.0, touched.1, now)
        } else {
            Seq::empty()
        }
    }

    /// `after` holds the popups after the first part of a frame: one fresh
    /// popup for each crash has come behind those that were there, and all
    /// of them have gone on for the frame.
    pub open spec fn popups_advanced(
        self,
        after: Seq<DamagePopup>,
        input: InputSnapshot,
        delta: u32,
        now: u64,
    ) -> bool {
        exists|risen: Seq<DamagePopup>| #[trigger]
            popped(self.popups, risen, self.crash_marks(input, delta, now)) && after
                == risen.map_values(|p: DamagePopup| p.updated(delta as u64))
    }

    /// Where the player's bullets trail particles in the first part of a
    /// frame: at every live bullet, once it has flown, while the player
    /// lives.
    pub open spec fn own_trail(self, input: InputSnapshot, delta: u32, now: u64) -> Seq<Position> {
        let moved = self.moved(input, delta, now);
        if self.player.active {
            trail_points(moved.bullets, moved.bullets.len() as int)
        } else {
            Seq::empty()
        }
    }

    /// Where the enemies' bullets trail particles in the first part of a
    /// frame.
    pub open spec fn hostile_trail(self, input: InputSnapshot, delta: u32, now: u64) -> Seq<
        Position,
    > {
        let moved = self.moved(input, delta, now);
        if self.player.active {
            trail_points(moved.enemy_bullets, moved.enemy_bullets.len() as int)
        } else {
            Seq::empty()
        }
    }

    /// `after` holds the particles after the first part of a frame: every
    /// live bullet of the player and then every live bullet of the enemies
    /// has trailed one; all particles have moved on; and a dashing player
    /// has left one more behind.
    pub open spec fn particles_advanced(
        self,
        after: Seq<Particle>,
        input: InputSnapshot,
        delta: u32,
        now: u64,
    ) -> bool {
        let moved = self.moved(input, delta, now);
        let at = moved.player.dashed(delta, now).position;
        exists|own: Seq<Particle>, hostile: Seq<Particle>|
            #![trigger trailed(
                own,
                hostile,
                self.hostile_trail(input, delta, now),
                ParticleType::EnemyShotParticle,
                now,
            )]
            trailed(
                self.particles,
                own,
                self.own_trail(input, delta, now),
                ParticleType::ShotParticle,
                now,
            ) && trailed(
                own,
                hostile,
                self.hostile_trail(input, delta, now),
                ParticleType::EnemyShotParticle,
                now,
            ) && if moved.player.is_dashing {
                &&& after.len() == hostile.len() + 1
                &&& after.drop_last() == hostile.map_values(|p: Particle| p.updated(delta, now))
                &&& is_spark(after.last(), ParticleType::PlayerDashParticle, at, now)
            } else {
                after == hostile.map_values(|p: Particle| p.updated(delta, now))
            }
    }

    /// `after` is this stage after the first part of a frame of the run:
    /// the actors have moved and the remnants drifted as `advanced` says,
    /// the popups and the particles have gone on and gained what the frame
    /// brought them, and the drift behind the title and the menu are as
    /// they were.
    pub open spec fn acted(self, after: Stage, input: InputSnapshot, delta: u32, now: u64) -> bool {
        &&& after == (Stage {
            popups: after.popups,
            particles: after.particles,
            ..self.advanced(input, delta, now)
        })
        &&& self.popups_advanced(after.popups, input, delta, now)
        &&& self.particles_advanced(after.particles, input, delta, now)
    }

    /// What an enemy that appears now is worth.
    pub open spec fn worth(self) -> int {
        spawn_xp(self.director.base_given_xp, self.director.kill_count, self.director.progression)
    }

    /// Enemies still spawn: the player lives and the run is not yet won.
    pub open spec fn spawning(self) -> bool {
        self.player.active && self.sw.elapsed <= 240_000
    }

    /// Room is left for one more ground enemy.
    pub open spec fn ground_room(self) -> bool {
        self.spawning() && self.enemies.len() < ground_cap(self.director.progression)
    }

    /// Room is left for one more flying enemy.
    pub open spec fn flying_room(self) -> bool {
        self.spawning() && self.bats.len() < flying_cap(self.director.progression)
    }

    /// Room is left for one more turret.
    pub open spec fn turret_room(self) -> bool {
        self.spawning() && self.towers.len() < turret_cap(self.director.progression)
    }

    /// `after` is this stage after the spawning of a frame that ends at
    /// `now`: each pool of enemies with room has gained one member, which
    /// stands fresh at a spawn point round the player that some draws name
    /// and is worth what the director gives; nothing else has changed, no
    /// other pool either.
    pub open spec fn spawned(self, after: Stage, now: u64) -> bool {
        let at = self.player.position;
        &&& after == (Stage { enemies: after.enemies, bats: after.bats, towers: after.towers, ..self })
        &&& if self.ground_room() {
            &&& after.enemies.len() == self.enemies.len() + 1
            &&& after.enemies.take(self.enemies.len() as int) == self.enemies
            &&& exists|direction: i32, side: i32, radius: i32|
                -1 <= direction <= 1 && 0 <= side <= 1 && 60 <= radius <= 92
                    && after.enemies.last().fresh(
                    (#[trigger] spawn_point(at.x, at.y, direction, side, radius)).x,
                    spawn_point(at.x, at.y, direction, side, radius).y,
                    self.worth() as i64,
                )
        } else {
            after.enemies == self.enemies
        }
        &&& if self.flying_room() {
            &&& after.bats.len() == self.bats.len() + 1
            &&& after.bats.take(self.bats.len() as int) == self.bats
            &&& exists|side: i32, height: i32|
                0 <= side <= 1 && 500 <= height < 2000 && after.bats.last().fresh(
                    (#[trigger] bat_spawn_point(at.x, at.y, side, height)).x,
                    bat_spawn_point(at.x, at.y, side, height).y,
                    if side == 0 {
                        -1i32
                    } else {
                        1i32
                    },
                    self.worth() as i64,
                    now,
                )
        } else {
            after.bats == self.bats
        }
        &&& if self.turret_room() {
            exists|angle: i32|
                0 <= angle < 6283 && after.towers == self.towers.push(
                    TowerEnemy {
                        x: (#[trigger] tower_spawn_point(at.x, at.y, angle)).x,
                        y: tower_spawn_point(at.x, at.y, angle).y,
                        bullet_cooldown: Timer { duration: 1000, start_time: now },
                        activity_cooldown: Timer { duration: 5000, start_time: now },
                        active: true,
                    },
                )
        } else {
            after.towers == self.towers
        }
    }

    /// The stage after the combat of a frame, but for its popups and its
    /// remnants, which are here as they were: `fought` says what becomes of
    /// them. The player's health returns where it is due, the player's
    /// bullets hit the ground enemies, the enemies' bullets hit the player,
    /// every enemy without health is killed and pays out, and every flying
    /// enemy whose time is up is taken away. Turrets and particles are left
    /// alone.
    pub open spec fn resolved(self, now: u64) -> Stage {
        let healed = self.player.regenerated(now);
        let dmg = healed.curr_dmg;
        let many = self.bullets.len() as int;
        let hit = Seq::new(
            self.enemies.len(),
            |i: int|
                Enemies {
                    hp: hp_after(self.enemies[i].hp, self.enemies[i].position, self.bullets, dmg, many),
                    ..self.enemies[i]
                },
        );
        let shake = shaken(
            self.shake,
            hit_marks(self.enemies, self.enemies.len() as int, self.bullets, dmg).len(),
        );
        let shot = after_shots(self.enemy_bullets, self.enemy_bullets.len() as int, healed, shake, now);
        let paid = flying_tally(
            self.bats,
            self.bats.len() as int,
            ground_tally(
                hit,
                hit.len() as int,
                Tally {
                    xp: shot.0.curr_xp,
                    kills: self.director.kill_count,
                    tier: self.director.progression,
                },
            ),
        );
        Stage {
            player: Player { curr_xp: paid.xp, ..shot.0 },
            director: Director { kill_count: paid.kills, progression: paid.tier, ..self.director },
            enemies: hit.map_values(|e: Enemies| Enemies { alive: e.alive && e.hp > 0, ..e }),
            bats: self.bats.map_values(
                |b: BatEnemy| (BatEnemy { active: b.active && b.hp > 0, ..b }).cleaned(now),
            ),
            bullets: Seq::new(
                self.bullets.len(),
                |j: int|
                    Bullet {
                        active: self.bullets[j].active && !spent_on(
                            self.enemies,
                            self.enemies.len() as int,
                            self.bullets,
                            dmg,
                            j,
                        ),
                        ..self.bullets[j]
                    },
            ),
            enemy_bullets: Seq::new(
                self.enemy_bullets.len(),
                |j: int|
                    Bullet {
                        active: self.enemy_bullets[j].active && !shot_lands(
                            after_shots(self.enemy_bullets, j, healed, shake, now).0,
                            self.enemy_bullets[j],
                            now,
                        ),
                        ..self.enemy_bullets[j]
                    },
            ),
            shake: shot.1,
            ..self
        }
    }

    /// The ground enemies once the player's bullets have hit them.
    pub open spec fn hit_enemies(self, now: u64) -> Seq<Enemies> {
        let dmg = self.player.regenerated(now).curr_dmg;
        Seq::new(
            self.enemies.len(),
            |i: int|
                Enemies {
                    hp: hp_after(
                        self.enemies[i].hp,
                        self.enemies[i].position,
                        self.bullets,
                        dmg,
                        self.bullets.len() as int,
                    ),
                    ..self.enemies[i]
                },
        )
    }

    /// `after` holds the popups after the combat of a frame: behind those
    /// that were there, one fresh popup for each hit on a ground enemy, and
    /// behind these one for each hit on the player.
    pub open spec fn popups_resolved(self, after: Seq<DamagePopup>, now: u64) -> bool {
        let healed = self.player.regenerated(now);
        let marks = hit_marks(self.enemies, self.enemies.len() as int, self.bullets, healed.curr_dmg);
        exists|hit: Seq<DamagePopup>| #[trigger]
            popped(self.popups, hit, marks) && popped(
                hit,
                after,
                shot_marks(
                    self.enemy_bullets,
                    self.enemy_bullets.len() as int,
                    healed,
                    shaken(self.shake, marks.len()),
                    now,
                ),
            )
    }

    /// `after` holds the remnants after the combat of a frame: behind those
    /// that were there, one fresh remnant for each ground enemy that was
    /// killed, and behind these one for each flying enemy that was killed.
    pub open spec fn remnants_resolved(self, after: Seq<DeadEnemy>, now: u64) -> bool {
        let hit = self.hit_enemies(now);
        exists|ground: Seq<DeadEnemy>| #[trigger]
            buried(self.remnants, ground, ground_graves(hit, hit.len() as int)) && buried(
                ground,
                after,
                flying_graves(self.bats, self.bats.len() as int),
            )
    }

    /// `after` is this stage after the combat of a frame: the actors are as
    /// `resolved` says, every hit has left a popup and every kill a remnant,
    /// and the particles, the drift behind the title and the menu are as
    /// they were.
    pub open spec fn fought(self, after: Stage, now: u64) -> bool {
        &&& after == (Stage { popups: after.popups, remnants: after.remnants, ..self.resolved(now) })
        &&& self.popups_resolved(after.popups, now)
        &&& self.remnants_resolved(after.remnants, now)
    }

    /// The stage once a full bar of experience has levelled the player up:
    /// the experience is back at nothing, the level is one higher, two
    /// offers are drawn with the time as the seed, and the level-up screen
    /// is next.
    pub open spec fn leveled(self, now: u64) -> Stage {
        if self.player.xp_full() {
            Stage {
                player: Player {
                    curr_xp: 0,
                    level: if self.player.level < u32::MAX {
                        (self.player.level + 1) as u32
                    } else {
                        self.player.level
                    },
                    ..self.player
                },
                level_state: LevelState::LevelUp,
                upgrades: drawn_offers(now, now),
                ..self
            }
        } else {
            self
        }
    }

    /// The stage once the player has had the chance to shoot: where the
    /// wait is over, a bullet is aimed at the nearest ground enemy and
    /// fired, and the next wait begins, as long as the fire rate makes it.
    pub open spec fn fired(self, now: u64) -> Stage {
        if self.director.bullet_cooldown.finished_at(now) {
            let at = self.player.position;
            Stage {
                bullets: self.bullets.push(
                    fired(at.x, at.y, aimed(at, self.enemies, self.enemies.len() as int).1),
                ),
                director: Director {
                    bullet_cooldown: Timer {
                        duration: shot_wait(self.director.bullet_cooldown_bonus) as u64,
                        start_time: now,
                    },
                    ..self.director
                },
                ..self
            }
        } else {
            self
        }
    }

    /// The stage once every pool has been compacted: each keeps its live
    /// members, in their order, and nothing else.
    pub open spec fn culled(self) -> Stage {
        Stage {
            enemies: survivors(self.enemies),
            bats: survivors(self.bats),
            towers: survivors(self.towers),
            bullets: survivors(self.bullets),
            enemy_bullets: survivors(self.enemy_bullets),
            remnants: survivors(self.remnants),
            popups: survivors(self.popups),
            particles: survivors(self.particles),
            intro_particles: survivors(self.intro_particles),
            ..self
        }
    }

    /// The stage with every pool of the run emptied; the drift behind the
    /// title is not of the run and stays.
    pub open spec fn emptied(self) -> Stage {
        Stage {
            enemies: Seq::empty(),
            bats: Seq::empty(),
            towers: Seq::empty(),
            bullets: Seq::empty(),
            enemy_bullets: Seq::empty(),
            remnants: Seq::empty(),
            popups: Seq::empty(),
            particles: Seq::empty(),
            ..self
        }
    }

    /// The player is without health.
    pub open spec fn lost(self) -> bool {
        self.player.curr_hp <= 0
    }

    /// A living player has outlasted the run.
    pub open spec fn won(self) -> bool {
        self.player.curr_hp > 0 && self.player.active && self.sw.elapsed > 240_000
    }

    /// The stage at the end of a frame. A player without health dies: the
    /// fade goes on, the clock stops, the pools are emptied, the screen
    /// shakes, and the title comes back once the fade is over. A living
    /// player who has outlasted the run has won: the pools are emptied, the
    /// ground shakes for six seconds, and two seconds later the wipe begins,
    /// at whose end the summary comes.
    pub open spec fn concluded(self, delta: u32) -> Stage {
        if self.lost() {
            let fade = self.death_tweener.advanced(delta as u64);
            Stage {
                player: self.player.dead(),
                sw: Stopwatch { elapsed: self.sw.elapsed, paused: true },
                shake: shake_plus(self.shake, 550),
                death_tweener: fade,
                level_state: if fade.finished_spec() {
                    LevelState::PreGame
                } else {
                    self.level_state
                },
                ..self.emptied()
            }
        } else if self.won() {
            let wiping = self.sw.elapsed > 248_000;
            let wipe = if wiping {
                self.tweener.advanced(delta as u64)
            } else {
                self.tweener
            };
            Stage {
                shake: if self.sw.elapsed < 246_000 {
                    shake_plus(self.shake, 500)
                } else {
                    self.shake
                },
                tweener: wipe,
                level_state: if wiping && wipe.finished_spec() {
                    LevelState::StageCleared
                } else {
                    self.level_state
                },
                ..self.emptied()
            }
        } else {
            self
        }
    }

    /// The stage is as a run begins at `now`: the player stands fresh at the
    /// middle of the field, the director is back at tier one, the pools of
    /// the run are empty, the clock shows zero, nothing shakes, the first
    /// offer is chosen, and the fade, the wipe and the bounce of the menu
    /// are at their beginning.
    pub open spec fn begun(self, now: u64) -> bool {
        &&& self.player.fresh(128_000, 128_000, now)
        &&& self.director == (Director {
            progression: 1,
            kill_count: 0,
            base_given_xp: 50_000,
            bullet_cooldown: Timer { duration: 700, start_time: now },
            bullet_cooldown_bonus: 1000,
        })
        &&& self.emptied() == self
        &&& self.sw == (Stopwatch { elapsed: 0, paused: false })
        &&& self.shake == 0
        &&& self.choosen_upgrade_index == 0
        &&& self.death_tweener.keyframes@ == swell_keys(10_000)
        &&& self.death_tweener.elapsed == 0
        &&& self.death_tweener.duration == 2000
        &&& !self.death_tweener.repeating
        &&& self.tweener.keyframes@ == swell_keys(640_000)
        &&& self.tweener.elapsed == 0
        &&& self.tweener.duration == 5000
        &&& !self.tweener.repeating
        &&& self.upgrade_menu_tween.keyframes@ == bounce_keys()
        &&& self.upgrade_menu_tween.elapsed == 0
        &&& self.upgrade_menu_tween.duration == 1000
        &&& self.upgrade_menu_tween.repeating
    }

    /// No pool of enemies holds more than the tier allows.
    pub open spec fn within_caps(self) -> bool {
        &&& self.enemies.len() <= ground_cap(self.director.progression)
        &&& self.bats.len() <= flying_cap(self.director.progression)
        &&& self.towers.len() <= turret_cap(self.director.progression)
    }

    /// `after` is this stage after one frame of the run that is `delta`
    /// milliseconds long and ends at `now`: the clock ticks, the actors
    /// move, enemies spawn in some way that the caps allow, combat is
    /// fought, and then level-up, the player's shot, the compaction and the
    /// end of the frame follow as their definitions say. Every pool is
    /// compacted just once, after all else but the end of the frame.
    pub open spec fn played(self, after: Stage, input: InputSnapshot, delta: u32, now: u64) -> bool {
        exists|moved: Stage, mid: Stage, fought: Stage|
            #![trigger moved.spawned(mid, now), mid.fought(fought, now)]
            self.ticked(delta).acted(moved, input, delta, now) && moved.spawned(mid, now)
                && mid.fought(fought, now) && after == fought.leveled(now).fired(
                now,
            ).culled().concluded(delta)
    }
}

/// Kills never lower the tier.
pub proof fn lemma_ground_kills_keep_tier(enemies: Seq<Enemies>, upto: int, t: Tally)
    ensures
        ground_tally(enemies, upto, t).tier >= t.tier,
    decreases upto,
{
    if !(upto <= 0 || upto > enemies.len()) {
        lemma_ground_kills_keep_tier(enemies, upto - 1, t);
    }
}

/// Kills never lower the tier.
pub proof fn lemma_flying_kills_keep_tier(enemies: Seq<BatEnemy>, upto: int, t: Tally)
    ensures
        flying_tally(enemies, upto, t).tier >= t.tier,
    decreases upto,
{
    if !(upto <= 0 || upto > enemies.len()) {
        lemma_flying_kills_keep_tier(enemies, upto - 1, t);
    }
}

/// A frame of the run that begins within the caps ends within them: the
/// ground enemies are at most five times the tier, the flying enemies at
/// most twice the tier, and the turrets at most twice the tier and none
/// below the third.
pub proof fn lemma_played_within_caps(s: Stage, after: Stage, input: InputSnapshot, delta: u32, now: u64)
    requires
        s.within_caps(),
        s.played(after, input, delta, now),
    ensures
        after.within_caps(),
        after.director.progression >= s.director.progression,
{
    let (moved, mid, fought) = choose|moved: Stage, mid: Stage, fought: Stage|
        #![trigger moved.spawned(mid, now), mid.fought(fought, now)]
        s.ticked(delta).acted(moved, input, delta, now) && moved.spawned(mid, now) && mid.fought(
            fought,
            now,
        ) && after == fought.leveled(now).fired(now).culled().concluded(delta);
    assert(moved.within_caps());
    assert(mid.within_caps());
    let healed = mid.player.regenerated(now);
    let dmg = healed.curr_dmg;
    let hit = Seq::new(
        mid.enemies.len(),
        |i: int|
            Enemies {
                hp: hp_after(
                    mid.enemies[i].hp,
                    mid.enemies[i].position,
                    mid.bullets,
                    dmg,
                    mid.bullets.len() as int,
                ),
                ..mid.enemies[i]
            },
    );
    let shake = shaken(
        mid.shake,
        hit_marks(mid.enemies, mid.enemies.len() as int, mid.bullets, dmg).len(),
    );
    let shot = after_shots(mid.enemy_bullets, mid.enemy_bullets.len() as int, healed, shake, now);
    let t_start = Tally { xp: shot.0.curr_xp, kills: mid.director.kill_count, tier: mid.director.progression };
    lemma_ground_kills_keep_tier(hit, hit.len() as int, t_start);
    lemma_flying_kills_keep_tier(mid.bats, mid.bats.len() as int, ground_tally(hit, hit.len() as int, t_start));
    assert(fought.within_caps());
    let shot_at = fought.leveled(now).fired(now);
    assert(shot_at.within_caps());
    lemma_survivors(shot_at.enemies);
    lemma_survivors(shot_at.bats);
    lemma_survivors(shot_at.towers);
    assert(shot_at.culled().within_caps());
}

/// What the kill of an enemy is worth is settled when the enemy appears:
/// nothing that a frame does to a ground enemy before the compaction
/// changes it, whatever becomes of the tier meanwhile.
pub proof fn lemma_worth_outlasts_the_frame(s: Stage, input: InputSnapshot, delta: u32, now: u64, i: int)
    requires
        0 <= i < s.enemies.len(),
    ensures
        s.advanced(input, delta, now).enemies[i].given_xp == s.enemies[i].given_xp,
        s.resolved(now).enemies[i].given_xp == s.enemies[i].given_xp,
        s.fired(now).enemies[i].given_xp == s.enemies[i].given_xp,
        s.leveled(now).enemies[i].given_xp == s.enemies[i].given_xp,
{
}

/// The same for a flying enemy.
pub proof fn lemma_bat_worth_outlasts_the_frame(
    s: Stage,
    input: InputSnapshot,
    delta: u32,
    now: u64,
    i: int,
)
    requires
        0 <= i < s.bats.len(),
    ensures
        s.advanced(input, delta, now).bats[i].given_xp == s.bats[i].given_xp,
        s.resolved(now).bats[i].given_xp == s.bats[i].given_xp,
        s.fired(now).bats[i].given_xp == s.bats[i].given_xp,
        s.leveled(now).bats[i].given_xp == s.bats[i].given_xp,
{
}

} // verus!
