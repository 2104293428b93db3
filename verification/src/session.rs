//! The session: one aggregate that owns the whole simulation, and the state
//! machine that leads it from the title through a run to its end.

use vstd::prelude::*;
use crate::bats::{
    advance_bat_animations, clean_bat_enemies, draw_bat_enemies, spawn_bat,
    update_bat_enemies_colliding, update_bat_enemies_position, BatEnemy,
};
use crate::bullets::{
    draw_bullets, draw_enemy_bullets, is_spark, painted_bullets, spawn_bullet, trail_points,
    trailed, update_bullets, update_enemy_bullets, Bullet,
};
use crate::combat::{
    bullet_damage_player, buried, damage_enemy, flying_tally, ground_graves, ground_tally,
    hit_marks, kill_bat_enemies, kill_enemies, Tally,
};
use crate::damage_popup::{draw_popups, popped, update_popups, DamagePopup};
use crate::director::{flying_cap, ground_cap, turret_cap, Director};
use crate::enemies::{
    add_shake, advance_enemy_animations, draw_enemies, draw_enemies_collider, spawn_enemies,
    update_enemies_colliding, update_enemies_position, update_enemies_pushing, Enemies,
};
use crate::fixed::trunc_div;
use crate::particles::{
    draw_particles, painted, shaped, spawn_particle, update_particles, Jitter, Particle,
    ParticleType,
};
use crate::spatial::Position;
use crate::player::Player;
use crate::pool::{lemma_survivors, retain_active, survivors};
use crate::remnants::{draw_dead_enemies, update_dead_enemies, DeadEnemy};
use crate::render::DrawCommand;
use crate::stage::{bounce_keys, swell_keys, InputSnapshot, LevelState, Stage};
use crate::stopwatch::Stopwatch;
use crate::towers::{
    draw_tower_enemies, painted_towers, spawn_tower, update_tower_enemies, TowerEnemy,
};
use crate::tween::{Easing, Keyframe, Tween};
use crate::upgrade::{pick_random_upgrades, Upgrade};

verus! {

/// The run is won once the session clock has passed this many
/// milliseconds.
pub const WIN_AFTER: u64 = 240_000;

/// Until this time the ground shakes after the win.
pub const QUAKE_UNTIL: u64 = 246_000;

/// From this time on the screen is wiped.
pub const WIPE_AFTER: u64 = 248_000;

/// What one frame is given: the input, its length in milliseconds, and the
/// time at its end.
#[derive(Clone, Copy, Debug, PartialEq, Eq, Structural)]
pub struct FrameInput {
    pub input: InputSnapshot,
    pub delta: u32,
    pub now: u64,
}

/// The whole state of a session.
pub struct Session {
    pub player: Player,
    pub director: Director,
    pub enemies: Vec<Enemies>,
    pub bat_enemies: Vec<BatEnemy>,
    pub tower_enemies: Vec<TowerEnemy>,
    pub bullets: Vec<Bullet>,
    pub enemy_bullets: Vec<Bullet>,
    pub dead_enemies: Vec<DeadEnemy>,
    pub particles: Vec<Particle>,
    pub intro_particles: Vec<Particle>,
    pub damage_popups: Vec<DamagePopup>,
    /// The two upgrades on offer.
    pub upgrades: Vec<Upgrade>,
    pub choosen_upgrade_index: i32,
    /// The bounce of the offer that is chosen.
    pub upgrade_menu_tween: Tween,
    /// The session clock.
    pub sw: Stopwatch,
    pub screen_shake_amount: i64,
    pub level_state: LevelState,
    /// The fade after the player's death.
    pub death_tweener: Tween,
    /// The wipe after the win.
    pub tweener: Tween,
}

/// The experience after a level-up: none.
pub fn level_up_player(player_xp: &mut i64, player_level: &mut u32, state: &mut LevelState)
    ensures
        *final(player_xp) == 0,
        *final(player_level) == if *old(player_level) < u32::MAX {
            (*old(player_level) + 1) as u32
        } else {
            *old(player_level)
        },
        *final(state) == LevelState::LevelUp,
{
    *player_xp = 0;
    if *player_level < u32::MAX {
        *player_level = *player_level + 1;
    }
    *state = LevelState::LevelUp;
}

/// Where the session goes from the level-up screen: back into the run on
/// the confirm button, nowhere without it.
pub fn level_up_input(confirm: bool) -> (next: Option<LevelState>)
    ensures
        next == if confirm {
            Some(LevelState::InGame)
        } else {
            None::<LevelState>
        },
{
    if confirm {
        return Some(LevelState::InGame);
    }
    None
}

/// The right button moves the choice: it is pressed and the choice is not
/// on the second offer yet.
pub open spec fn steps_right(index: i32, right: bool) -> bool {
    right && index != 1 && index < i32::MAX
}

/// The choice once the right button has had its turn.
pub open spec fn after_right(index: i32, right: bool) -> i32 {
    if steps_right(index, right) {
        (index + 1) as i32
    } else {
        index
    }
}

/// The left button moves the choice: it is pressed, the right button has
/// not ended the turn on the second offer, and the choice is not on the
/// first offer.
pub open spec fn steps_left(index: i32, left: bool, right: bool) -> bool {
    left && !(right && index == 1) && after_right(index, right) != 0 && after_right(index, right)
        > i32::MIN
}

/// The offer that is chosen after the menu buttons.
pub open spec fn chosen_after(index: i32, left: bool, right: bool) -> i32 {
    if steps_left(index, left, right) {
        (after_right(index, right) - 1) as i32
    } else {
        after_right(index, right)
    }
}

/// The bounce of the chosen offer after a frame of `delta` milliseconds on
/// the level-up screen: it goes on, and starts over where the choice moves.
pub open spec fn menu_bounce(s: Stage, input: InputSnapshot, delta: u32) -> Tween {
    let gone_on = s.upgrade_menu_tween.advanced(delta as u64);
    if steps_right(s.choosen_upgrade_index, input.menu_right) || steps_left(
        s.choosen_upgrade_index,
        input.menu_left,
        input.menu_right,
    ) {
        Tween { elapsed: 0, ..gone_on }
    } else {
        gone_on
    }
}

/// The stage after one frame on the level-up screen: the clock stands
/// still and the menu buttons move the choice; on the confirm button the
/// chosen offer takes effect on the player and the director, the clock
/// runs again and the run goes on. Every pool is left alone.
pub open spec fn menu_turn(s: Stage, input: InputSnapshot, delta: u32) -> Stage {
    let index = chosen_after(s.choosen_upgrade_index, input.menu_left, input.menu_right);
    if input.confirm {
        Stage {
            choosen_upgrade_index: index,
            upgrade_menu_tween: menu_bounce(s, input, delta),
            player: s.upgrades[index as int].on_player(s.player),
            director: s.upgrades[index as int].on_director(s.director),
            sw: Stopwatch { elapsed: s.sw.elapsed, paused: false },
            level_state: LevelState::InGame,
            ..s
        }
    } else {
        Stage {
            choosen_upgrade_index: index,
            upgrade_menu_tween: menu_bounce(s, input, delta),
            sw: Stopwatch { elapsed: s.sw.elapsed, paused: true },
            ..s
        }
    }
}

/// `after` is the stage `s` after one frame of the session: the screen
/// shake has died down, and the phase that the session was in has had its
/// turn. In front of the title the drift goes on, and nothing else happens
/// until the confirm button begins a run on a fresh world, with the offers
/// as they were; on the summary the restart button leads back to the title,
/// and nothing else changes.
pub open spec fn framed(s: Stage, after: Stage, input: InputSnapshot, delta: u32, now: u64) -> bool {
    let calm = Stage { shake: shake_decay(s.shake) as i64, ..s };
    match s.level_state {
        LevelState::PreGame => drifted(s.intro_particles, after.intro_particles, delta, now) && (
        if input.confirm {
            after.level_state == LevelState::InGame && after.begun(now) && after.upgrades
                == s.upgrades
        } else {
            after == (Stage { intro_particles: after.intro_particles, ..calm })
        }),
        LevelState::InGame => calm.played(after, input, delta, now),
        LevelState::LevelUp => after == menu_turn(calm, input, delta),
        LevelState::StageCleared => after == (Stage {
            level_state: if input.restart {
                LevelState::PreGame
            } else {
                LevelState::StageCleared
            },
            ..calm
        }),
    }
}

/// `after` is the stage `s` after the first `upto` of the given frames, one
/// after the other.
pub open spec fn ran(s: Stage, after: Stage, frames: Seq<FrameInput>, upto: int) -> bool
    decreases upto,
{
    if upto <= 0 || upto > frames.len() {
        after == s
    } else {
        exists|mid: Stage|
            ran(s, mid, frames, upto - 1) && #[trigger] framed(
                mid,
                after,
                frames[upto - 1].input,
                frames[upto - 1].delta,
                frames[upto - 1].now,
            )
    }
}

/// A frame of the session that begins within the caps ends within them,
/// whatever phase the session is in.
pub proof fn lemma_framed_within_caps(s: Stage, after: Stage, input: InputSnapshot, delta: u32, now: u64)
    requires
        s.within_caps(),
        framed(s, after, input, delta, now),
    ensures
        after.within_caps(),
{
    let calm = Stage { shake: shake_decay(s.shake) as i64, ..s };
    match s.level_state {
        LevelState::InGame => {
            crate::stage::lemma_played_within_caps(calm, after, input, delta, now);
        },
        _ => {},
    }
}

/// However many frames a session runs through, no pool of enemies ever
/// holds more than its cap: the ground enemies are at most five times the
/// tier, the flying enemies at most twice the tier, and the turrets at most
/// twice the tier and none below the third.
pub proof fn lemma_ran_within_caps(s: Stage, after: Stage, frames: Seq<FrameInput>, upto: int)
    requires
        s.within_caps(),
        ran(s, after, frames, upto),
    ensures
        after.within_caps(),
    decreases upto,
{
    if !(upto <= 0 || upto > frames.len()) {
        let mid = choose|mid: Stage|
            ran(s, mid, frames, upto - 1) && #[trigger] framed(
                mid,
                after,
                frames[upto - 1].input,
                frames[upto - 1].delta,
                frames[upto - 1].now,
            );
        lemma_ran_within_caps(s, mid, frames, upto - 1);
        lemma_framed_within_caps(
            mid,
            after,
            frames[upto - 1].input,
            frames[upto - 1].delta,
            frames[upto - 1].now,
        );
    }
}

/// Moves the choice between the two offers; whenever it moves, the bounce
/// of the chosen offer starts over.
pub fn choose_upgrade_input(index: &mut i32, tween: &mut Tween, left: bool, right: bool)
    ensures
        *final(index) == chosen_after(*old(index), left, right),
        *final(tween) == if steps_right(*old(index), right) || steps_left(*old(index), left, right) {
            Tween { elapsed: 0, ..*old(tween) }
        } else {
            *old(tween)
        },
        0 <= *old(index) <= 1 ==> 0 <= *final(index) <= 1,
{
    if right {
        if *index == 1 {
            return ;
        } else if *index < i32::MAX {
            *index = *index + 1;
            tween.restart();
        }
    }
    if left {
        if *index == 0 {
            return ;
        } else if *index > i32::MIN {
            *index = *index - 1;
            tween.restart();
        }
    }
}

/// Gives the player `gained` experience and levels it up where that fills
/// the bar: the experience is then exactly nothing, whatever was gained
/// beyond the bar. Tells whether the player levelled up.
pub fn award_xp(player: &mut Player, gained: i64, state: &mut LevelState) -> (leveled: bool)
    requires
        old(player).wf(),
        gained >= 0,
    ensures
        final(player).wf(),
        leveled == (old(player).curr_xp + gained >= old(player).max_xp),
        leveled ==> *final(player) == (Player {
            curr_xp: 0,
            level: if old(player).level < u32::MAX {
                (old(player).level + 1) as u32
            } else {
                old(player).level
            },
            ..*old(player)
        }) && *final(state) == LevelState::LevelUp,
        !leveled ==> *final(player) == (Player {
            curr_xp: (old(player).curr_xp + gained) as i64,
            ..*old(player)
        }) && *final(state) == *old(state),
{
    player.gain_xp(gained);
    resolve_level_up(player, state)
}

/// Levels the player up where its experience has reached what the next
/// level asks for, and tells whether it did.
pub fn resolve_level_up(player: &mut Player, state: &mut LevelState) -> (leveled: bool)
    requires
        old(player).wf(),
    ensures
        final(player).wf(),
        leveled == old(player).xp_full(),
        leveled ==> *final(player) == (Player {
            curr_xp: 0,
            level: if old(player).level < u32::MAX {
                (old(player).level + 1) as u32
            } else {
                old(player).level
            },
            ..*old(player)
        }) && *final(state) == LevelState::LevelUp,
        !leveled ==> *final(player) == *old(player) && *final(state) == *old(state),
        final(player).curr_xp < final(player).max_xp,
{
    if player.curr_xp >= player.max_xp {
        let mut xp: i64 = player.curr_xp;
        let mut level: u32 = player.level;
        level_up_player(&mut xp, &mut level, state);
        player.curr_xp = xp;
        player.level = level;
        true
    } else {
        false
    }
}

/// The screen shake one frame later: ninety-four hundredths of it.
pub open spec fn shake_decay(shake: i64) -> int {
    trunc_div(shake * 94, 100)
}

pub fn decayed(shake: i64) -> (s: i64)
    ensures
        s == shake_decay(shake),
{
    let n: i128 = (shake as i128) * 94;
    let q: i128 = if n >= 0 {
        n / 100
    } else {
        -((-n) / 100)
    };
    q as i64
}

/// `after` is the drift behind the title one frame after `before`: one
/// particle has appeared at the top of the screen, a quarter of its width
/// in and jittered in some way, all particles have moved on, and those whose
/// time is up are gone.
pub open spec fn drifted(before: Seq<Particle>, after: Seq<Particle>, delta: u32, now: u64) -> bool {
    exists|j: Jitter| #[trigger]
        j.wf() && after == survivors(
            before.push(shaped(ParticleType::IntroParticle, 160_000, 0, now, j)).map_values(
                |p: Particle| p.updated(delta, now),
            ),
        )
}

fn bounce() -> (t: Tween)
    ensures
        t.keyframes@ == bounce_keys(),
        t.duration == 1000,
        t.elapsed == 0,
        t.repeating,
{
    let mut keys: Vec<Keyframe> = Vec::new();
    keys.push(Keyframe::new(0, 0, Easing::EaseOut));
    keys.push(Keyframe::new(4000, 500, Easing::EaseOut));
    keys.push(Keyframe::new(0, 1000, Easing::EaseOut));
    assert(keys@ =~= bounce_keys());
    Tween::from_keyframes(keys, 0, 1, true)
}

fn swell(to: i32, millis: u64) -> (t: Tween)
    ensures
        t.keyframes@ == swell_keys(to),
        t.duration == millis,
        t.elapsed == 0,
        !t.repeating,
{
    let mut keys: Vec<Keyframe> = Vec::new();
    keys.push(Keyframe::new(0, 0, Easing::EaseInOut));
    keys.push(Keyframe::new(to, 1000, Easing::EaseInOut));
    assert(keys@ =~= swell_keys(to));
    Tween::over_millis(keys, millis, false)
}

/// Every member of `s` is sound, and its kill takes no experience away.
pub open spec fn all_ground_wf(s: Seq<Enemies>) -> bool {
    forall|i: int| 0 <= i < s.len() ==> (#[trigger] s[i]).wf() && s[i].given_xp >= 0
}

/// Every member of `s` is sound, and its kill takes no experience away.
pub open spec fn all_flying_wf(s: Seq<BatEnemy>) -> bool {
    forall|i: int| 0 <= i < s.len() ==> (#[trigger] s[i]).wf() && s[i].given_xp >= 0
}

/// Every member of `s` is sound.
pub open spec fn all_particles_wf(s: Seq<Particle>) -> bool {
    forall|i: int| 0 <= i < s.len() ==> (#[trigger] s[i]).wf()
}

/// A trail behind sound particles leaves all particles sound.
proof fn lemma_trailed_wf(
    before: Seq<Particle>,
    after: Seq<Particle>,
    points: Seq<Position>,
    kind: ParticleType,
    now: u64,
)
    requires
        all_particles_wf(before),
        trailed(before, after, points, kind, now),
    ensures
        all_particles_wf(after),
{
    assert forall|i: int| 0 <= i < after.len() implies (#[trigger] after[i]).wf() by {
        if i < before.len() {
            assert(after.take(before.len() as int)[i] == after[i]);
            assert(before[i].wf());
        } else {
            let k = i - before.len();
            assert(is_spark(after[before.len() + k], kind, points[k], now));
        }
    }
}

/// One more particle behind sound particles leaves all particles sound.
proof fn lemma_spark_wf(
    before: Seq<Particle>,
    after: Seq<Particle>,
    kind: ParticleType,
    x: i32,
    y: i32,
    now: u64,
)
    requires
        all_particles_wf(before),
        exists|j: Jitter| #[trigger] j.wf() && after == before.push(shaped(kind, x, y, now, j)),
    ensures
        all_particles_wf(after),
{
    let j = choose|j: Jitter| #[trigger] j.wf() && after == before.push(shaped(kind, x, y, now, j));
    assert forall|i: int| 0 <= i < after.len() implies (#[trigger] after[i]).wf() by {
        if i < before.len() {
            assert(before[i].wf());
        }
    }
}

/// Kills among enemies whose kill takes no experience away take none
/// away, and never lower the tier.
proof fn lemma_ground_tally_grows(enemies: Seq<Enemies>, upto: int, t: Tally)
    requires
        all_ground_wf(enemies),
        t.xp >= 0,
    ensures
        ground_tally(enemies, upto, t).xp >= t.xp,
        ground_tally(enemies, upto, t).tier >= t.tier,
    decreases upto,
{
    if !(upto <= 0 || upto > enemies.len()) {
        lemma_ground_tally_grows(enemies, upto - 1, t);
        assert(enemies[upto - 1].given_xp >= 0);
    }
}

/// The same among flying enemies.
proof fn lemma_flying_tally_grows(enemies: Seq<BatEnemy>, upto: int, t: Tally)
    requires
        all_flying_wf(enemies),
        t.xp >= 0,
    ensures
        flying_tally(enemies, upto, t).xp >= t.xp,
        flying_tally(enemies, upto, t).tier >= t.tier,
    decreases upto,
{
    if !(upto <= 0 || upto > enemies.len()) {
        lemma_flying_tally_grows(enemies, upto - 1, t);
        assert(enemies[upto - 1].given_xp >= 0);
    }
}

/// Compaction keeps sound ground enemies sound.
proof fn lemma_ground_survivors_wf(s: Seq<Enemies>)
    requires
        all_ground_wf(s),
    ensures
        all_ground_wf(survivors(s)),
        survivors(s).len() <= s.len(),
{
    lemma_survivors(s);
    assert forall|i: int| 0 <= i < survivors(s).len() implies (#[trigger] survivors(s)[i]).wf()
        && survivors(s)[i].given_xp >= 0 by {
        assert(s.contains(survivors(s)[i]));
        let j = choose|j: int| 0 <= j < s.len() && s[j] == survivors(s)[i];
        assert(s[j].wf());
    }
}

/// Compaction keeps sound flying enemies sound.
proof fn lemma_flying_survivors_wf(s: Seq<BatEnemy>)
    requires
        all_flying_wf(s),
    ensures
        all_flying_wf(survivors(s)),
        survivors(s).len() <= s.len(),
{
    lemma_survivors(s);
    assert forall|i: int| 0 <= i < survivors(s).len() implies (#[trigger] survivors(s)[i]).wf()
        && survivors(s)[i].given_xp >= 0 by {
        assert(s.contains(survivors(s)[i]));
        let j = choose|j: int| 0 <= j < s.len() && s[j] == survivors(s)[i];
        assert(s[j].wf());
    }
}

/// Compaction keeps sound particles sound.
proof fn lemma_particle_survivors_wf(s: Seq<Particle>)
    requires
        all_particles_wf(s),
    ensures
        all_particles_wf(survivors(s)),
{
    lemma_survivors(s);
    assert forall|i: int| 0 <= i < survivors(s).len() implies (#[trigger] survivors(s)[i]).wf() by {
        assert(s.contains(survivors(s)[i]));
        let j = choose|j: int| 0 <= j < s.len() && s[j] == survivors(s)[i];
        assert(s[j].wf());
    }
}

fn all_in_gamut(particles: &Vec<Particle>) -> (b: bool)
    ensures
        b == all_particles_wf(particles@),
{
    let mut i: usize = 0;
    while i < particles.len()
        invariant
            i <= particles@.len(),
            forall|k: int| 0 <= k < i ==> (#[trigger] particles@[k]).wf(),
        decreases particles@.len() - i,
    {
        if !particles[i].color_start.is_in_gamut() || !particles[i].color_end.is_in_gamut() {
            return false;
        }
        i += 1;
    }
    true
}

impl Session {
    /// No pool holds more than the tier allows.
    pub open spec fn within_caps(&self) -> bool {
        &&& self.enemies@.len() <= ground_cap(self.director.progression)
        &&& self.bat_enemies@.len() <= flying_cap(self.director.progression)
        &&& self.tower_enemies@.len() <= turret_cap(self.director.progression)
    }

    /// Every member of every pool is sound.
    pub open spec fn pools_wf(&self) -> bool {
        &&& all_ground_wf(self.enemies@)
        &&& all_flying_wf(self.bat_enemies@)
        &&& all_particles_wf(self.particles@)
        &&& all_particles_wf(self.intro_particles@)
    }

    /// The session is sound: the player and the pools are, no pool is over
    /// its cap, two upgrades are on offer and one of them is chosen, and
    /// the tier is at least one.
    pub open spec fn wf(&self) -> bool {
        &&& self.player.wf()
        &&& self.pools_wf()
        &&& self.within_caps()
        &&& self.upgrades@.len() == 2
        &&& 0 <= self.choosen_upgrade_index <= 1
        &&& self.director.progression >= 1
    }

    /// The session as mathematics: every field, the pools as sequences.
    pub open spec fn stage(&self) -> Stage {
        Stage {
            player: self.player,
            director: self.director,
            enemies: self.enemies@,
            bats: self.bat_enemies@,
            towers: self.tower_enemies@,
            bullets: self.bullets@,
            enemy_bullets: self.enemy_bullets@,
            upgrades: self.upgrades@,
            choosen_upgrade_index: self.choosen_upgrade_index,
            sw: self.sw,
            shake: self.screen_shake_amount,
            level_state: self.level_state,
            death_tweener: self.death_tweener,
            tweener: self.tweener,
            remnants: self.dead_enemies@,
            popups: self.damage_popups@,
            particles: self.particles@,
            intro_particles: self.intro_particles@,
            upgrade_menu_tween: self.upgrade_menu_tween,
        }
    }

    /// Tells whether the session is sound.
    pub fn is_sound(&self) -> (b: bool)
        ensures
            b == self.wf(),
    {
        if !self.player.is_wf() || self.upgrades.len() != 2 || self.choosen_upgrade_index < 0
            || self.choosen_upgrade_index > 1 || self.director.progression < 1 {
            return false;
        }
        let tier: u64 = self.director.progression as u64;
        let turrets: u64 = if tier >= 3 {
            2 * tier
        } else {
            0
        };
        if (self.enemies.len() as u64) > 5 * tier || (self.bat_enemies.len() as u64) > 2 * tier
            || (self.tower_enemies.len() as u64) > turrets {
            return false;
        }
        let mut i: usize = 0;
        while i < self.enemies.len()
            invariant
                i <= self.enemies@.len(),
                forall|k: int|
                    0 <= k < i ==> (#[trigger] self.enemies@[k]).wf() && self.enemies@[k].given_xp
                        >= 0,
            decreases self.enemies@.len() - i,
        {
            if !self.enemies[i].anims.is_wf() || self.enemies[i].given_xp < 0 {
                return false;
            }
            i += 1;
        }
        let mut i: usize = 0;
        while i < self.bat_enemies.len()
            invariant
                i <= self.bat_enemies@.len(),
                forall|k: int|
                    0 <= k < i ==> (#[trigger] self.bat_enemies@[k]).wf()
                        && self.bat_enemies@[k].given_xp >= 0,
            decreases self.bat_enemies@.len() - i,
        {
            if !self.bat_enemies[i].anims.is_wf() || self.bat_enemies[i].given_xp < 0 {
                return false;
            }
            i += 1;
        }
        all_in_gamut(&self.particles) && all_in_gamut(&self.intro_particles)
    }

    /// Between two frames the experience is below what the next level asks
    /// for.
    pub open spec fn settled(&self) -> bool {
        self.player.curr_xp < self.player.max_xp
    }

    /// Every transient pool is empty.
    pub open spec fn cleared(&self) -> bool {
        &&& self.enemies@.len() == 0
        &&& self.bat_enemies@.len() == 0
        &&& self.tower_enemies@.len() == 0
        &&& self.bullets@.len() == 0
        &&& self.enemy_bullets@.len() == 0
        &&& self.dead_enemies@.len() == 0
        &&& self.particles@.len() == 0
        &&& self.damage_popups@.len() == 0
    }

    /// The session is as a run begins at `now`: see `Stage::begun`.
    pub open spec fn begun(&self, now: u64) -> bool {
        self.stage().begun(now)
    }

    /// A session in front of its title, made at `now`.
    pub fn new(now: u64) -> (s: Session)
        ensures
            s.wf(),
            s.settled(),
            s.begun(now),
            s.level_state == LevelState::PreGame,
            s.intro_particles@.len() == 0,
            s.upgrades@ == crate::stage::drawn_offers(now, now),
    {
        let s = Session {
            player: Player::new(128_000, 128_000, now),
            director: Director::new(now),
            enemies: Vec::new(),
            bat_enemies: Vec::new(),
            tower_enemies: Vec::new(),
            bullets: Vec::new(),
            enemy_bullets: Vec::new(),
            dead_enemies: Vec::new(),
            particles: Vec::new(),
            intro_particles: Vec::new(),
            damage_popups: Vec::new(),
            upgrades: pick_random_upgrades(now, now),
            choosen_upgrade_index: 0,
            upgrade_menu_tween: bounce(),
            sw: Stopwatch::new(),
            screen_shake_amount: 0,
            level_state: LevelState::PreGame,
            death_tweener: swell(10_000, 2000),
            tweener: swell(640_000, 5000),
        };
        assert(s.stage().emptied() =~= s.stage());
        s
    }

    /// Empties every transient pool.
    pub fn clear_pools(&mut self)
        requires
            old(self).wf(),
        ensures
            final(self).wf(),
            final(self).cleared(),
            final(self).player == old(self).player,
            final(self).director == old(self).director,
            final(self).sw == old(self).sw,
            final(self).level_state == old(self).level_state,
            final(self).screen_shake_amount == old(self).screen_shake_amount,
            final(self).upgrades == old(self).upgrades,
            final(self).choosen_upgrade_index == old(self).choosen_upgrade_index,
            final(self).intro_particles == old(self).intro_particles,
            final(self).death_tweener == old(self).death_tweener,
            final(self).tweener == old(self).tweener,
            final(self).upgrade_menu_tween == old(self).upgrade_menu_tween,
    {
        self.enemies = Vec::new();
        self.bat_enemies = Vec::new();
        self.tower_enemies = Vec::new();
        self.bullets = Vec::new();
        self.enemy_bullets = Vec::new();
        self.dead_enemies = Vec::new();
        self.particles = Vec::new();
        self.damage_popups = Vec::new();
    }

    /// The first part of a frame of the run: the player walks or dashes,
    /// the enemies move and touch, the turrets shoot, the bullets fly and
    /// trail particles, and remnants, popups and particles go on showing.
    /// No pool gains or loses an enemy; the director, the phase, the clock,
    /// the offers, the menu and the drift behind the title are left alone.
    pub fn advance_actors(&mut self, input: &InputSnapshot, delta: u32, now: u64)
        requires
            old(self).wf(),
        ensures
            final(self).wf(),
            old(self).stage().acted(final(self).stage(), *input, delta, now),
    {
        let ghost s_start = self.stage();
        let ghost own = self.particles@;
        let ghost hostile = self.particles@;
        proof {
            assert(self.damage_popups@.take(self.damage_popups@.len() as int)
                =~= self.damage_popups@);
            assert(self.particles@.take(self.particles@.len() as int) =~= self.particles@);
        }
        if self.player.active {
            self.player.begin_dash(input.dash, input.keys, now);
            if !self.player.is_dashing {
                self.player.move_me(delta, input.keys);
            }
            let ghost steered = self.player;
            let px: i32 = self.player.position.x;
            let py: i32 = self.player.position.y;
            let ghost target = Position { x: px, y: py };
            update_enemies_position(&mut self.enemies, &px, &py, delta);
            let ghost homed = self.enemies@;
            update_enemies_pushing(&mut self.enemies);
            let ghost ground = self.enemies@;
            update_enemies_colliding(
                &self.enemies,
                &mut self.player,
                &mut self.screen_shake_amount,
                now,
            );
            update_bat_enemies_position(&mut self.bat_enemies, delta);
            let ghost flown = self.bat_enemies@;
            update_bat_enemies_colliding(
                &mut self.bat_enemies,
                &mut self.player,
                &mut self.screen_shake_amount,
                &mut self.damage_popups,
                now,
            );
            update_tower_enemies(&mut self.tower_enemies, &px, &py, &mut self.enemy_bullets, now);
            let ghost sparks = self.particles@;
            update_bullets(&mut self.bullets, &mut self.particles, delta, now);
            proof {
                lemma_trailed_wf(
                    sparks,
                    self.particles@,
                    crate::bullets::trail_points(self.bullets@, self.bullets@.len() as int),
                    ParticleType::ShotParticle,
                    now,
                );
            }
            let ghost sparks = self.particles@;
            proof {
                own = self.particles@;
            }
            update_enemy_bullets(&mut self.enemy_bullets, &mut self.particles, delta, now);
            proof {
                hostile = self.particles@;
                lemma_trailed_wf(
                    sparks,
                    self.particles@,
                    crate::bullets::trail_points(
                        self.enemy_bullets@,
                        self.enemy_bullets@.len() as int,
                    ),
                    ParticleType::EnemyShotParticle,
                    now,
                );
                let want = s_start.moved(*input, delta, now);
                assert(steered == s_start.steered(*input, delta, now));
                assert(homed =~= s_start.enemies.map_values(|e: Enemies| e.homed(target, delta)));
                assert(ground =~= s_start.closed_in(target, delta));
                assert(flown =~= s_start.bats.map_values(|b: BatEnemy| b.flown(delta)));
                assert(self.enemies@ =~= want.enemies);
                assert(self.bat_enemies@ =~= want.bats);
                assert(self.tower_enemies@ =~= want.towers);
                assert(self.bullets@ =~= want.bullets);
                assert(self.enemy_bullets@ =~= want.enemy_bullets);
                assert(self.stage() =~= (Stage {
                    popups: self.damage_popups@,
                    particles: self.particles@,
                    ..want
                }));
            }
        }
        let ghost s_moved = self.stage();
        let ghost risen = self.damage_popups@;
        let px: i32 = self.player.position.x;
        update_dead_enemies(&mut self.dead_enemies, &px, delta);
        update_particles(&mut self.particles, delta, now);
        let ghost flown = self.particles@;
        proof {
            assert(flown =~= hostile.map_values(|p: Particle| p.updated(delta, now)));
            assert(self.dead_enemies@ =~= old(self).dead_enemies@.map_values(
                |d: DeadEnemy| d.updated(s_moved.player.position.x, delta),
            ));
        }
        if self.player.is_dashing {
            self.player.dash(delta, now);
            let ghost sparks = self.particles@;
            spawn_particle(
                &mut self.particles,
                self.player.position.x,
                self.player.position.y,
                ParticleType::PlayerDashParticle,
                now,
            );
            proof {
                lemma_spark_wf(
                    sparks,
                    self.particles@,
                    ParticleType::PlayerDashParticle,
                    self.player.position.x,
                    self.player.position.y,
                    now,
                );
            }
        }
        self.player.anims.get_animation_source(delta as u64);
        advance_enemy_animations(&mut self.enemies, delta as u64);
        advance_bat_animations(&mut self.bat_enemies, delta as u64);
        update_popups(&mut self.damage_popups, delta as u64);
        proof {
            let want = s_moved.shown(delta, now);
            assert(self.enemies@ =~= want.enemies);
            assert(self.bat_enemies@ =~= want.bats);
            assert(self.dead_enemies@ =~= want.remnants);
            assert(self.stage() =~= (Stage {
                popups: self.damage_popups@,
                particles: self.particles@,
                ..want
            }));
            assert(self.damage_popups@ =~= risen.map_values(
                |p: DamagePopup| p.updated(delta as u64),
            ));
            assert(popped(
                old(self).damage_popups@,
                risen,
                s_start.crash_marks(*input, delta, now),
            ));
            if s_moved.player.is_dashing {
                assert(self.particles@.drop_last() =~= flown);
            }
            assert(trailed(
                old(self).particles@,
                own,
                s_start.own_trail(*input, delta, now),
                ParticleType::ShotParticle,
                now,
            ) && trailed(
                own,
                hostile,
                s_start.hostile_trail(*input, delta, now),
                ParticleType::EnemyShotParticle,
                now,
            ));
            assert(s_start.popups_advanced(self.damage_popups@, *input, delta, now));
            assert(s_start.particles_advanced(self.particles@, *input, delta, now));
            assert(self.stage() =~= (Stage {
                popups: self.damage_popups@,
                particles: self.particles@,
                ..s_start.advanced(*input, delta, now)
            }));
        }
    }

    /// The spawning of a frame: while the player lives and the run is not
    /// yet won, each pool of enemies that is under its cap gains one member,
    /// whose worth is what the director gives at this moment. Nothing else
    /// changes, and no other pool is touched.
    pub fn spawn_wave(&mut self, now: u64)
        requires
            old(self).wf(),
        ensures
            final(self).wf(),
            old(self).stage().spawned(final(self).stage(), now),
    {
        if self.player.active && self.sw.elapsed() <= WIN_AFTER {
            let px: i32 = self.player.position.x;
            let py: i32 = self.player.position.y;
            let given_xp: i64 = self.director.given_xp();
            if self.director.ground_room(self.enemies.len()) {
                let ghost before = self.enemies@;
                spawn_enemies(&mut self.enemies, &px, &py, given_xp);
                proof {
                    assert forall|i: int| 0 <= i < self.enemies@.len() implies {
                        &&& (#[trigger] self.enemies@[i]).wf()
                        &&& self.enemies@[i].given_xp >= 0
                    } by {
                        if i < before.len() {
                            assert(self.enemies@.take(before.len() as int)[i] == self.enemies@[i]);
                            assert(before[i].wf());
                        }
                    }
                }
            }
            if self.director.flying_room(self.bat_enemies.len()) {
                let ghost before = self.bat_enemies@;
                spawn_bat(&mut self.bat_enemies, px, py, given_xp, now);
                proof {
                    assert forall|i: int| 0 <= i < self.bat_enemies@.len() implies {
                        &&& (#[trigger] self.bat_enemies@[i]).wf()
                        &&& self.bat_enemies@[i].given_xp >= 0
                    } by {
                        if i < before.len() {
                            assert(self.bat_enemies@.take(before.len() as int)[i]
                                == self.bat_enemies@[i]);
                            assert(before[i].wf());
                        }
                    }
                }
            }
            if self.director.turret_room(self.tower_enemies.len()) {
                spawn_tower(&mut self.tower_enemies, px, py, now);
            }
        } else {
            assert(self.enemies@.take(self.enemies@.len() as int) =~= self.enemies@);
            assert(self.bat_enemies@.take(self.bat_enemies@.len() as int) =~= self.bat_enemies@);
        }
        assert(self.enemies@.take(old(self).enemies@.len() as int) =~= old(self).enemies@);
        assert(self.bat_enemies@.take(old(self).bat_enemies@.len() as int) =~= old(self).bat_enemies@);
    }

    /// The combat of a frame: the player's health returns where it is due,
    /// bullets hit enemies and the player, and the kills are resolved. Each
    /// hit leaves a popup and each kill a remnant. No pool gains or loses
    /// an enemy or a bullet; the turrets, the particles and the drift behind
    /// the title are left alone.
    pub fn resolve_combat(&mut self, now: u64)
        requires
            old(self).wf(),
        ensures
            final(self).wf(),
            old(self).stage().fought(final(self).stage(), now),
    {
        let ghost s_start = self.stage();
        self.player.regenerate(now);
        let dmg: i64 = self.player.curr_dmg;
        let ghost healed = self.player;
        damage_enemy(
            &mut self.bullets,
            &mut self.enemies,
            &mut self.damage_popups,
            &mut self.screen_shake_amount,
            &dmg,
        );
        let ghost hit = self.enemies@;
        let ghost hit_popups = self.damage_popups@;
        bullet_damage_player(
            &mut self.enemy_bullets,
            &mut self.player,
            &mut self.damage_popups,
            &mut self.screen_shake_amount,
            now,
        );
        let ghost t_start = Tally {
            xp: self.player.curr_xp,
            kills: self.director.kill_count,
            tier: self.director.progression,
        };
        proof {
            assert(all_ground_wf(hit)) by {
                assert forall|i: int| 0 <= i < hit.len() implies (#[trigger] hit[i]).wf()
                    && hit[i].given_xp >= 0 by {
                    assert(old(self).enemies@[i].wf());
                }
            }
            lemma_ground_tally_grows(hit, hit.len() as int, t_start);
        }
        kill_enemies(
            &mut self.enemies,
            &mut self.player.curr_xp,
            &mut self.dead_enemies,
            &mut self.director.kill_count,
            &mut self.director.progression,
        );
        let ghost t_ground = Tally {
            xp: self.player.curr_xp,
            kills: self.director.kill_count,
            tier: self.director.progression,
        };
        let ghost flying = self.bat_enemies@;
        let ghost ground_remnants = self.dead_enemies@;
        proof {
            lemma_flying_tally_grows(flying, flying.len() as int, t_ground);
        }
        kill_bat_enemies(
            &mut self.bat_enemies,
            &mut self.player.curr_xp,
            &mut self.dead_enemies,
            &mut self.director.kill_count,
            &mut self.director.progression,
        );
        clean_bat_enemies(&mut self.bat_enemies, now);
        proof {
            assert forall|i: int| 0 <= i < self.enemies@.len() implies {
                &&& (#[trigger] self.enemies@[i]).wf()
                &&& self.enemies@[i].given_xp >= 0
            } by {
                assert(hit[i].wf());
            }
            assert forall|i: int| 0 <= i < self.bat_enemies@.len() implies {
                &&& (#[trigger] self.bat_enemies@[i]).wf()
                &&& self.bat_enemies@[i].given_xp >= 0
            } by {
                assert(flying[i].wf());
            }
            let want = s_start.resolved(now);
            assert(healed == s_start.player.regenerated(now));
            assert(hit =~= Seq::new(
                s_start.enemies.len(),
                |i: int|
                    Enemies {
                        hp: crate::combat::hp_after(
                            s_start.enemies[i].hp,
                            s_start.enemies[i].position,
                            s_start.bullets,
                            dmg,
                            s_start.bullets.len() as int,
                        ),
                        ..s_start.enemies[i]
                    },
            ));
            assert(self.enemies@ =~= want.enemies);
            assert(self.bat_enemies@ =~= want.bats);
            assert(self.bullets@ =~= want.bullets);
            assert(self.enemy_bullets@ =~= want.enemy_bullets);
            assert(self.stage() =~= (Stage {
                popups: self.damage_popups@,
                remnants: self.dead_enemies@,
                ..want
            }));
            assert(popped(
                old(self).damage_popups@,
                hit_popups,
                hit_marks(s_start.enemies, s_start.enemies.len() as int, s_start.bullets, dmg),
            ));
            assert(buried(
                old(self).dead_enemies@,
                ground_remnants,
                ground_graves(hit, hit.len() as int),
            ));
            assert(hit =~= s_start.hit_enemies(now));
            assert(s_start.popups_resolved(self.damage_popups@, now));
            assert(s_start.remnants_resolved(self.dead_enemies@, now));
        }
    }

    /// The player's shot of a frame: where the wait is over, a bullet is
    /// aimed and fired, and the next wait begins, as long as the fire rate
    /// makes it. Only the player's bullets and the director's wait change.
    pub fn fire(&mut self, now: u64)
        requires
            old(self).wf(),
        ensures
            final(self).wf(),
            final(self).stage() == old(self).stage().fired(now),
    {
        if self.director.bullet_cooldown.finished(now) {
            let px: i32 = self.player.position.x;
            let py: i32 = self.player.position.y;
            spawn_bullet(&mut self.bullets, &self.enemies, &px, &py);
            let wait: u64 = self.director.shot_wait_millis();
            self.director.bullet_cooldown.set_duration_millis(wait);
            self.director.bullet_cooldown.restart(now);
        }
    }

    /// The compaction of a frame, the only one: every pool keeps its live
    /// members, in their order, and nothing else; nothing but the pools
    /// changes.
    pub fn cull(&mut self)
        requires
            old(self).wf(),
        ensures
            final(self).wf(),
            final(self).stage() == old(self).stage().culled(),
    {
        proof {
            lemma_ground_survivors_wf(self.enemies@);
            lemma_flying_survivors_wf(self.bat_enemies@);
            lemma_particle_survivors_wf(self.particles@);
            lemma_particle_survivors_wf(self.intro_particles@);
            lemma_survivors(self.tower_enemies@);
        }
        retain_active(&mut self.bullets);
        retain_active(&mut self.enemy_bullets);
        retain_active(&mut self.enemies);
        retain_active(&mut self.bat_enemies);
        retain_active(&mut self.tower_enemies);
        retain_active(&mut self.dead_enemies);
        retain_active(&mut self.damage_popups);
        retain_active(&mut self.particles);
        retain_active(&mut self.intro_particles);
    }

    /// The end of a frame of the run. A player without health dies: the
    /// fade goes on, the clock stops, every transient pool is emptied, and
    /// the title comes back once the fade is over. A living player who has
    /// outlasted the run has won: the pools are emptied, and once the wipe
    /// is over the summary comes.
    pub fn conclude(&mut self, delta: u32)
        requires
            old(self).wf(),
        ensures
            final(self).wf(),
            final(self).stage() == old(self).stage().concluded(delta),
    {
        if self.player.curr_hp <= 0 {
            self.death_tweener.update(delta as u64);
            self.player.die();
            self.sw.pause();
            self.clear_pools();
            self.screen_shake_amount = add_shake(self.screen_shake_amount, 550);
            if self.death_tweener.finished() {
                self.level_state = LevelState::PreGame;
            }
        }
        let elapsed: u64 = self.sw.elapsed();
        if elapsed > WIN_AFTER && self.player.active && self.player.curr_hp > 0 {
            self.clear_pools();
            if elapsed < QUAKE_UNTIL {
                self.screen_shake_amount = add_shake(self.screen_shake_amount, 500);
            }
            if elapsed > WIPE_AFTER {
                self.tweener.update(delta as u64);
                if self.tweener.finished() {
                    self.level_state = LevelState::StageCleared;
                }
            }
        }
    }

    /// One frame of the run, `delta` milliseconds long, that ends at `now`:
    /// the clock ticks, the actors move, enemies spawn, combat is resolved
    /// and leaves its popups and remnants, a full bar of experience levels
    /// the player up and brings two new offers, the player shoots, every
    /// pool is compacted once, and death or victory are looked for. Tells
    /// whether the player levelled up.
    pub fn update_in_game(&mut self, input: &InputSnapshot, delta: u32, now: u64) -> (leveled: bool)
        requires
            old(self).wf(),
        ensures
            final(self).wf(),
            final(self).settled(),
            old(self).stage().played(final(self).stage(), *input, delta, now),
            leveled ==> final(self).player.curr_xp == 0,
            !leveled ==> final(self).upgrades@ == old(self).upgrades@,
    {
        let ghost s_start = self.stage();
        self.sw.tick(delta as u64);
        self.choosen_upgrade_index = 0;
        assert(self.stage() == s_start.ticked(delta));
        self.advance_actors(input, delta, now);
        let ghost moved = self.stage();
        self.spawn_wave(now);
        let ghost mid = self.stage();
        self.resolve_combat(now);
        let ghost fought = self.stage();
        let leveled: bool = resolve_level_up(&mut self.player, &mut self.level_state);
        if leveled {
            self.upgrades = pick_random_upgrades(now, now);
        }
        assert(self.stage() == fought.leveled(now));
        self.fire(now);
        self.cull();
        self.conclude(delta);
        assert(s_start.ticked(delta).acted(moved, *input, delta, now) && moved.spawned(mid, now)
            && mid.fought(fought, now) && self.stage() == fought.leveled(now).fired(
            now,
        ).culled().concluded(delta));
        leveled
    }

    /// One frame in front of the title: the drift behind it goes on, and
    /// the confirm button begins a run.
    pub fn update_pre_game(&mut self, input: &InputSnapshot, delta: u32, now: u64)
        requires
            old(self).wf(),
        ensures
            final(self).wf(),
            drifted(old(self).intro_particles@, final(self).intro_particles@, delta, now),
            input.confirm ==> final(self).level_state == LevelState::InGame && final(self).begun(now)
                && final(self).upgrades@ == old(self).upgrades@
                && final(self).settled(),
            !input.confirm ==> final(self).stage() == (Stage {
                intro_particles: final(self).intro_particles@,
                ..old(self).stage()
            }),
    {
        let ghost sparks = self.intro_particles@;
        spawn_particle(&mut self.intro_particles, 160_000, 0, ParticleType::IntroParticle, now);
        proof {
            lemma_spark_wf(
                sparks,
                self.intro_particles@,
                ParticleType::IntroParticle,
                160_000,
                0,
                now,
            );
        }
        let ghost risen = self.intro_particles@;
        update_particles(&mut self.intro_particles, delta, now);
        proof {
            lemma_particle_survivors_wf(self.intro_particles@);
            assert(self.intro_particles@ =~= risen.map_values(|p: Particle| p.updated(delta, now)));
        }
        retain_active(&mut self.intro_particles);
        if input.confirm {
            self.reset(now);
        }
    }

    /// One frame on the level-up screen: the clock stands still, the menu
    /// buttons move the choice, and the confirm button puts the chosen
    /// offer, and no other, into effect and leads back into the run.
    pub fn update_level_up(&mut self, input: &InputSnapshot, delta: u32)
        requires
            old(self).wf(),
        ensures
            final(self).wf(),
            final(self).stage() == menu_turn(old(self).stage(), *input, delta),
            old(self).settled() ==> final(self).settled(),
    {
        self.sw.pause();
        self.upgrade_menu_tween.update(delta as u64);
        choose_upgrade_input(
            &mut self.choosen_upgrade_index,
            &mut self.upgrade_menu_tween,
            input.menu_left,
            input.menu_right,
        );
        match level_up_input(input.confirm) {
            Some(next) => {
                let chosen: Upgrade = self.upgrades[self.choosen_upgrade_index as usize];
                chosen.apply(&mut self.player, &mut self.director);
                self.sw.unpause();
                self.level_state = next;
            },
            None => {},
        }
    }

    /// One frame on the summary: the restart button leads back to the
    /// title.
    pub fn update_stage_cleared(&mut self, input: &InputSnapshot)
        ensures
            *final(self) == (Session {
                level_state: if input.restart {
                    LevelState::PreGame
                } else {
                    old(self).level_state
                },
                ..*old(self)
            }),
    {
        if input.restart {
            self.level_state = LevelState::PreGame;
        }
    }

    /// One frame of the session, `delta` milliseconds long, that ends at
    /// `now`: the screen shake dies down by six hundredths, and the phase
    /// that the session is in has its turn.
    pub fn frame(&mut self, input: &InputSnapshot, delta: u32, now: u64)
        requires
            old(self).wf(),
        ensures
            final(self).wf(),
            framed(old(self).stage(), final(self).stage(), *input, delta, now),
            old(self).settled() ==> final(self).settled(),
    {
        self.screen_shake_amount = decayed(self.screen_shake_amount);
        match self.level_state {
            LevelState::PreGame => {
                self.update_pre_game(input, delta, now);
            },
            LevelState::InGame => {
                self.update_in_game(input, delta, now);
            },
            LevelState::LevelUp => {
                self.update_level_up(input, delta);
            },
            LevelState::StageCleared => {
                self.update_stage_cleared(input);
            },
        }
    }

    /// Runs the session through the given frames, one after the other.
    /// However many they are, the session stays sound: no pool of enemies
    /// holds more than its cap, and the player's health stays in its
    /// range.
    pub fn run_frames(&mut self, frames: &Vec<FrameInput>)
        requires
            old(self).wf(),
        ensures
            final(self).wf(),
            ran(old(self).stage(), final(self).stage(), frames@, frames@.len() as int),
            final(self).within_caps(),
            0 <= final(self).player.curr_hp <= final(self).player.max_hp,
            old(self).settled() ==> final(self).settled(),
    {
        let n: usize = frames.len();
        let mut i: usize = 0;
        while i < n
            invariant
                i <= n,
                n == frames@.len(),
                self.wf(),
                old(self).settled() ==> self.settled(),
                ran(old(self).stage(), self.stage(), frames@, i as int),
            decreases n - i,
        {
            let ghost mid = self.stage();
            let f: FrameInput = frames[i];
            self.frame(&f.input, f.delta, f.now);
            i += 1;
            proof {
                let before = old(self).stage();
                let after = self.stage();
                let k = i as int;
                assert(framed(
                    mid,
                    after,
                    frames@[k - 1].input,
                    frames@[k - 1].delta,
                    frames@[k - 1].now,
                ));
                assert(exists|m: Stage|
                    ran(before, m, frames@, k - 1) && #[trigger] framed(
                        m,
                        after,
                        frames@[k - 1].input,
                        frames@[k - 1].delta,
                        frames@[k - 1].now,
                    ));
            }
        }
    }

    /// The command that paints the player at `now`.
    pub open spec fn player_drawn(&self, now: u64) -> DrawCommand {
        self.player.drawn(Some(self.player.anims.source()), now)
    }

    /// What there is to paint of the session at `now`, from the back to
    /// the front. In front of the title it is the drift; in a run the
    /// particles, the player, the three kinds of enemies, the remnants, the
    /// bullets and the popups; on the level-up screen the player, the
    /// ground enemies with their colliders and the player's bullets; on the
    /// summary nothing.
    pub open spec fn scene(&self, now: u64) -> Seq<DrawCommand> {
        match self.level_state {
            LevelState::PreGame => painted(self.intro_particles@, now),
            LevelState::InGame => painted(self.particles@, now) + seq![self.player_drawn(now)]
                + self.enemies@.map_values(|e: Enemies| e.drawn(self.player.position.x))
                + painted_towers(self.tower_enemies@) + self.bat_enemies@.map_values(
                |e: BatEnemy| e.drawn(),
            ) + self.dead_enemies@.filter_map(
                |d: DeadEnemy|
                    if d.active {
                        Some(d.drawn(self.player.position.x))
                    } else {
                        None
                    },
            ) + painted_bullets(
                self.bullets@,
                crate::render::Color { r: 1000, g: 1000, b: 1000, a: 1000 },
            ) + painted_bullets(
                self.enemy_bullets@,
                crate::render::Color { r: 1000, g: 430, b: 760, a: 1000 },
            ) + self.damage_popups@.filter_map(
                |p: DamagePopup|
                    if p.active {
                        Some(p.drawn())
                    } else {
                        None
                    },
            ),
            LevelState::LevelUp => seq![self.player_drawn(now)] + self.enemies@.map_values(
                |e: Enemies| e.drawn(self.player.position.x),
            ) + self.enemies@.map_values(|e: Enemies| e.collider_drawn()) + painted_bullets(
                self.bullets@,
                crate::render::Color { r: 1000, g: 1000, b: 1000, a: 1000 },
            ),
            LevelState::StageCleared => Seq::empty(),
        }
    }

    /// The commands that paint the session at `now`.
    pub fn draw(&self, now: u64) -> (commands: Vec<DrawCommand>)
        requires
            self.wf(),
        ensures
            commands@ == self.scene(now),
    {
        let px: i32 = self.player.position.x;
        match self.level_state {
            LevelState::PreGame => draw_particles(&self.intro_particles, now),
            LevelState::InGame => {
                let mut commands: Vec<DrawCommand> = draw_particles(&self.particles, now);
                let frame = self.player.anims.frames[self.player.anims.current_frame];
                commands.push(self.player.draw(Some(frame), now));
                let mut more: Vec<DrawCommand> = draw_enemies(&self.enemies, px);
                commands.append(&mut more);
                let mut more: Vec<DrawCommand> = draw_tower_enemies(&self.tower_enemies);
                commands.append(&mut more);
                let mut more: Vec<DrawCommand> = draw_bat_enemies(&self.bat_enemies);
                commands.append(&mut more);
                let mut more: Vec<DrawCommand> = draw_dead_enemies(&self.dead_enemies, &px);
                commands.append(&mut more);
                let mut more: Vec<DrawCommand> = draw_bullets(&self.bullets);
                commands.append(&mut more);
                let mut more: Vec<DrawCommand> = draw_enemy_bullets(&self.enemy_bullets);
                commands.append(&mut more);
                let mut more: Vec<DrawCommand> = draw_popups(&self.damage_popups);
                commands.append(&mut more);
                assert(commands@ =~= self.scene(now));
                commands
            },
            LevelState::LevelUp => {
                let mut commands: Vec<DrawCommand> = Vec::new();
                let frame = self.player.anims.frames[self.player.anims.current_frame];
                commands.push(self.player.draw(Some(frame), now));
                let mut more: Vec<DrawCommand> = draw_enemies(&self.enemies, px);
                commands.append(&mut more);
                let mut more: Vec<DrawCommand> = draw_enemies_collider(&self.enemies);
                commands.append(&mut more);
                let mut more: Vec<DrawCommand> = draw_bullets(&self.bullets);
                commands.append(&mut more);
                assert(commands@ =~= self.scene(now));
                commands
            },
            LevelState::StageCleared => Vec::new(),
        }
    }

    /// Sets the whole world back for a new run that begins at `now`.
    pub fn reset(&mut self, now: u64)
        requires
            old(self).wf(),
        ensures
            final(self).wf(),
            final(self).settled(),
            final(self).begun(now),
            final(self).level_state == LevelState::InGame,
            final(self).upgrades == old(self).upgrades,
            final(self).intro_particles == old(self).intro_particles,
    {
        self.clear_pools();
        self.sw = Stopwatch::new();
        self.player = Player::new(128_000, 128_000, now);
        self.director = Director::new(now);
        self.upgrade_menu_tween = bounce();
        self.tweener = swell(640_000, 5000);
        self.death_tweener = swell(10_000, 2000);
        self.screen_shake_amount = 0;
        self.choosen_upgrade_index = 0;
        self.level_state = LevelState::InGame;
        assert(self.stage().emptied() =~= self.stage());
    }
}

} // verus!
