//! Flying enemies: they cross the field on a wave and are gone after ten
//! seconds.

use vstd::prelude::*;
use crate::animation::{Animation, Rect};
use crate::damage_popup::{lemma_popped_push, popped, DamagePopup, Mark};
use crate::enemies::{
    add_shake, shake_plus, touch_lands, BLOW_SHAKE, CONTACT_DAMAGE, CONTACT_RADIUS, HIT_SHAKE,
};
use crate::fixed::{clamp_i32, cos_milli, cosine, lemma_mul_bound, saturate, trunc_div};
use crate::player::{loops_from_start, Player};
use crate::pool::Pooled;
use crate::random::random_in_range;
use crate::render::{Atlas, Color, DrawCommand, DrawKind};
use crate::spatial::{col, Position};
use crate::timer::Timer;

verus! {

/// A flying enemy.
pub struct BatEnemy {
    pub x: i32,
    pub y: i32,
    /// The height that the wave swings round.
    pub initial_y: i32,
    pub anims: Animation,
    pub curr_frame: Option<Rect>,
    pub hp: i64,
    pub active: bool,
    /// The sign of the horizontal flight.
    pub x_dir: i32,
    /// When this timer runs out, the enemy is taken away.
    pub clean_timer: Timer,
    pub given_xp: i64,
}

/// The two frames of a flying enemy.
pub open spec fn bat_frames() -> Seq<Rect> {
    seq![
        Rect { x: 1000, y: 10000, w: 9000, h: 9000 },
        Rect { x: 10000, y: 10000, w: 9000, h: 9000 },
    ]
}

/// The animation of a flying enemy.
pub fn bat_animation() -> (a: Animation)
    ensures
        loops_from_start(a, bat_frames()),
{
    let mut frames: Vec<Rect> = Vec::new();
    frames.push(Rect::new(1000, 10000, 9000, 9000));
    frames.push(Rect::new(10000, 10000, 9000, 9000));
    assert(frames@ =~= bat_frames());
    Animation::strip(frames, 200, true)
}

/// The height of the wave at the horizontal place `x`: twenty-five pixels
/// times the cosine of a tenth of `x` in pixels, round `anchor`.
pub open spec fn wave(anchor: i32, x: i32) -> int {
    clamp_i32(anchor + 25 * cosine(trunc_div(x as int, 10)))
}

impl BatEnemy {
    /// The animation is sound.
    pub open spec fn wf(&self) -> bool {
        self.anims.wf()
    }

    /// Where the enemy is.
    pub open spec fn position(&self) -> Position {
        Position { x: self.x, y: self.y }
    }

    /// The enemy is as it appears at `(x, y)` at `now`, flying toward
    /// `direction` and worth `given_xp`.
    pub open spec fn fresh(&self, x: i32, y: i32, direction: i32, given_xp: i64, now: u64) -> bool {
        &&& self.x == x
        &&& self.y == y
        &&& self.initial_y == y
        &&& self.hp == 1000
        &&& self.active
        &&& self.x_dir == direction
        &&& self.clean_timer == (Timer { duration: 10000, start_time: now })
        &&& self.given_xp == given_xp
        &&& loops_from_start(self.anims, bat_frames())
        &&& self.curr_frame == Some(Rect { x: 1000, y: 10000, w: 9000, h: 9000 })
    }

    pub fn new(x: i32, y: i32, direction: i32, given_xp: i64, now: u64) -> (e: BatEnemy)
        ensures
            e.fresh(x, y, direction, given_xp, now),
    {
        BatEnemy {
            x,
            y,
            hp: 1000,
            initial_y: y,
            anims: bat_animation(),
            curr_frame: Some(Rect::new(1000, 10000, 9000, 9000)),
            active: true,
            x_dir: direction,
            clean_timer: Timer::new(10000, now),
            given_xp,
        }
    }

    /// The enemy after `delta` milliseconds of flight: twenty pixels a
    /// second along its direction, at the height that the wave has there.
    pub open spec fn flown(self, delta: u32) -> BatEnemy {
        let x = clamp_i32(self.x + 20 * delta * self.x_dir) as i32;
        BatEnemy { x, y: wave(self.initial_y, x) as i32, ..self }
    }

    /// The enemy once its animation has run for `delta` more milliseconds.
    pub open spec fn animated(self, delta: u64) -> BatEnemy {
        BatEnemy {
            anims: self.anims.advanced(delta),
            curr_frame: Some(self.anims.advanced(delta).source()),
            ..self
        }
    }

    /// The enemy at `now`: taken away once its time is up.
    pub open spec fn cleaned(self, now: u64) -> BatEnemy {
        BatEnemy { active: self.active && !self.clean_timer.finished_at(now), ..self }
    }

    /// The command that paints the enemy.
    pub open spec fn drawn(&self) -> DrawCommand {
        DrawCommand {
            kind: DrawKind::Sprite { atlas: Atlas::Enemies, source: self.curr_frame },
            x: self.x,
            y: self.y,
            w: 9000,
            h: 9000,
            flip_x: false,
            tint: Color { r: 1000, g: 1000, b: 1000, a: 1000 },
        }
    }
}

impl Pooled for BatEnemy {
    open spec fn live_spec(&self) -> bool {
        self.active
    }

    fn live(&self) -> (b: bool) {
        self.active
    }
}

/// Every flying enemy of the pool after `delta` milliseconds of flight.
pub fn update_bat_enemies_position(enemies: &mut Vec<BatEnemy>, delta: u32)
    ensures
        final(enemies)@.len() == old(enemies)@.len(),
        forall|i: int|
            0 <= i < old(enemies)@.len() ==> #[trigger] final(enemies)@[i] == old(enemies)@[i].flown(
                delta,
            ),
{
    let n: usize = enemies.len();
    let mut i: usize = 0;
    while i < n
        invariant
            i <= n,
            n == enemies@.len(),
            n == old(enemies)@.len(),
            forall|k: int| 0 <= k < i ==> #[trigger] enemies@[k] == old(enemies)@[k].flown(delta),
            forall|k: int| i <= k < n ==> #[trigger] enemies@[k] == old(enemies)@[k],
        decreases n - i,
    {
        proof {
            lemma_mul_bound(20 * delta, enemies@[i as int].x_dir as int, 85899345900, 2147483648);
        }
        let step: i128 = 20 * (delta as i128) * (enemies[i].x_dir as i128);
        let x: i32 = saturate(enemies[i].x as i128 + step);
        let angle: i64 = if x >= 0 {
            (x / 10) as i64
        } else {
            -((-(x as i64)) / 10)
        };
        let c: i32 = cos_milli(angle);
        enemies[i].x = x;
        enemies[i].y = saturate(enemies[i].initial_y as i128 + 25 * (c as i128));
        i += 1;
    }
}

/// Runs the animation of every flying enemy for `delta` milliseconds.
pub fn advance_bat_animations(enemies: &mut Vec<BatEnemy>, delta: u64)
    requires
        forall|i: int| 0 <= i < old(enemies)@.len() ==> (#[trigger] old(enemies)@[i]).wf(),
    ensures
        final(enemies)@.len() == old(enemies)@.len(),
        forall|i: int|
            0 <= i < old(enemies)@.len() ==> #[trigger] final(enemies)@[i] == old(
                enemies
            )@[i].animated(delta) && final(enemies)@[i].wf(),
{
    let n: usize = enemies.len();
    let mut i: usize = 0;
    while i < n
        invariant
            i <= n,
            n == enemies@.len(),
            n == old(enemies)@.len(),
            forall|k: int| 0 <= k < n ==> (#[trigger] old(enemies)@[k]).wf(),
            forall|k: int|
                0 <= k < i ==> #[trigger] enemies@[k] == old(enemies)@[k].animated(delta)
                    && enemies@[k].wf(),
            forall|k: int| i <= k < n ==> #[trigger] enemies@[k] == old(enemies)@[k],
        decreases n - i,
    {
        assert(old(enemies)@[i as int].wf());
        let frame: Option<Rect> = enemies[i].anims.get_animation_source(delta);
        enemies[i].curr_frame = frame;
        i += 1;
    }
}

/// What there is to paint of the pool: one command for each flying enemy.
pub fn draw_bat_enemies(enemies: &Vec<BatEnemy>) -> (commands: Vec<DrawCommand>)
    ensures
        commands@ == enemies@.map_values(|e: BatEnemy| e.drawn()),
{
    let mut commands: Vec<DrawCommand> = Vec::new();
    let n: usize = enemies.len();
    let mut i: usize = 0;
    while i < n
        invariant
            i <= n,
            n == enemies@.len(),
            commands@ == enemies@.take(i as int).map_values(|e: BatEnemy| e.drawn()),
        decreases n - i,
    {
        let e = &enemies[i];
        commands.push(
            DrawCommand {
                kind: DrawKind::Sprite { atlas: Atlas::Enemies, source: e.curr_frame },
                x: e.x,
                y: e.y,
                w: 9000,
                h: 9000,
                flip_x: false,
                tint: Color::white(),
            },
        );
        i += 1;
        assert(commands@ =~= enemies@.take(i as int).map_values(|e: BatEnemy| e.drawn()));
    }
    assert(enemies@.take(n as int) =~= enemies@);
    commands
}

/// Takes away every flying enemy whose time is up.
pub fn clean_bat_enemies(enemies: &mut Vec<BatEnemy>, now: u64)
    ensures
        final(enemies)@.len() == old(enemies)@.len(),
        forall|i: int|
            0 <= i < old(enemies)@.len() ==> #[trigger] final(enemies)@[i] == old(
                enemies
            )@[i].cleaned(now),
{
    let n: usize = enemies.len();
    let mut i: usize = 0;
    while i < n
        invariant
            i <= n,
            n == enemies@.len(),
            n == old(enemies)@.len(),
            forall|k: int| 0 <= k < i ==> #[trigger] enemies@[k] == old(enemies)@[k].cleaned(now),
            forall|k: int| i <= k < n ==> #[trigger] enemies@[k] == old(enemies)@[k],
        decreases n - i,
    {
        if enemies[i].clean_timer.finished(now) {
            enemies[i].active = false;
        }
        i += 1;
    }
}

/// The player and the screen shake after the touches of the first `upto`
/// flying enemies, each taken in its turn. A touch that lands takes ten
/// points of health, begins the invulnerability and adds four to the
/// shake; where the enemy has health left, the crash adds one more.
pub open spec fn after_bat_touches(bats: Seq<BatEnemy>, upto: int, p: Player, shake: i64, now: u64) -> (
    Player,
    i64,
)
    decreases upto,
{
    if upto <= 0 || upto > bats.len() {
        (p, shake)
    } else {
        let before = after_bat_touches(bats, upto - 1, p, shake, now);
        let e = bats[upto - 1];
        if touch_lands(before.0, e.position(), now) {
            (
                before.0.struck(10_000, now),
                if e.hp > 0 {
                    shake_plus(shake_plus(before.1, 4000), 1000)
                } else {
                    shake_plus(before.1, 4000)
                },
            )
        } else {
            before
        }
    }
}

/// The flying enemy at place `i` crashes into the player in its turn and
/// has health to lose.
pub open spec fn bat_crashes(bats: Seq<BatEnemy>, i: int, p: Player, shake: i64, now: u64) -> bool {
    touch_lands(after_bat_touches(bats, i, p, shake, now).0, bats[i].position(), now) && bats[i].hp
        > 0
}

/// The losses to show after the touches of the first `upto` flying
/// enemies: one point over each enemy that crashed.
pub open spec fn bat_marks(bats: Seq<BatEnemy>, upto: int, p: Player, shake: i64, now: u64) -> Seq<
    Mark,
>
    decreases upto,
{
    if upto <= 0 || upto > bats.len() {
        Seq::empty()
    } else {
        let before = bat_marks(bats, upto - 1, p, shake, now);
        if bat_crashes(bats, upto - 1, p, shake, now) {
            before.push(Mark { x: bats[upto - 1].x, y: bats[upto - 1].y, amount: 1 })
        } else {
            before
        }
    }
}

/// Touches leave a sound player sound and change nothing of it but its
/// health, which does not grow, and its invulnerability.
pub proof fn lemma_bat_touches_hurt(bats: Seq<BatEnemy>, upto: int, p: Player, shake: i64, now: u64)
    requires
        p.wf(),
    ensures
        after_bat_touches(bats, upto, p, shake, now).0.wf(),
        after_bat_touches(bats, upto, p, shake, now).0.hurt_from(p),
    decreases upto,
{
    if !(upto <= 0 || upto > bats.len()) {
        lemma_bat_touches_hurt(bats, upto - 1, p, shake, now);
        crate::player::lemma_struck(after_bat_touches(bats, upto - 1, p, shake, now).0, 10_000, now);
    }
}

/// Lets every flying enemy that touches the player hurt it; an enemy that
/// does so with health left loses one point of it, which a popup shows.
pub fn update_bat_enemies_colliding(
    enemies: &mut Vec<BatEnemy>,
    player: &mut Player,
    screen_shake_amount: &mut i64,
    dmg_pop: &mut Vec<DamagePopup>,
    now: u64,
)
    requires
        old(player).wf(),
    ensures
        final(player).wf(),
        final(player).hurt_from(*old(player)),
        (*final(player), *final(screen_shake_amount)) == after_bat_touches(
            old(enemies)@,
            old(enemies)@.len() as int,
            *old(player),
            *old(screen_shake_amount),
            now,
        ),
        final(enemies)@.len() == old(enemies)@.len(),
        forall|i: int|
            0 <= i < old(enemies)@.len() ==> #[trigger] final(enemies)@[i] == (BatEnemy {
                hp: if bat_crashes(old(enemies)@, i, *old(player), *old(screen_shake_amount), now) {
                    (old(enemies)@[i].hp - 1000) as i64
                } else {
                    old(enemies)@[i].hp
                },
                ..old(enemies)@[i]
            }),
        popped(
            old(dmg_pop)@,
            final(dmg_pop)@,
            bat_marks(
                old(enemies)@,
                old(enemies)@.len() as int,
                *old(player),
                *old(screen_shake_amount),
                now,
            ),
        ),
{
    let n: usize = enemies.len();
    let mut i: usize = 0;
    let ghost p_start = *player;
    let ghost s_start = *screen_shake_amount;
    let ghost bats0 = enemies@;
    proof {
        lemma_bat_touches_hurt(bats0, n as int, p_start, s_start, now);
    }
    assert(dmg_pop@.take(dmg_pop@.len() as int) =~= dmg_pop@);
    while i < n
        invariant
            i <= n,
            n == enemies@.len(),
            bats0.len() == n,
            bats0 == old(enemies)@,
            p_start == *old(player),
            s_start == *old(screen_shake_amount),
            player.wf(),
            (*player, *screen_shake_amount) == after_bat_touches(bats0, i as int, p_start, s_start, now),
            forall|k: int|
                0 <= k < i ==> #[trigger] enemies@[k] == (BatEnemy {
                    hp: if bat_crashes(bats0, k, p_start, s_start, now) {
                        (bats0[k].hp - 1000) as i64
                    } else {
                        bats0[k].hp
                    },
                    ..bats0[k]
                }),
            forall|k: int| i <= k < n ==> #[trigger] enemies@[k] == bats0[k],
            popped(old(dmg_pop)@, dmg_pop@, bat_marks(bats0, i as int, p_start, s_start, now)),
        decreases n - i,
    {
        let at = Position { x: enemies[i].x, y: enemies[i].y };
        if col(player.position, at, CONTACT_RADIUS) {
            if player.take_damage(CONTACT_DAMAGE, now) {
                *screen_shake_amount = add_shake(*screen_shake_amount, BLOW_SHAKE);
                if enemies[i].hp > 0 {
                    let popup = DamagePopup::new(at.x, at.y, 1);
                    proof {
                        lemma_popped_push(
                            old(dmg_pop)@,
                            dmg_pop@,
                            bat_marks(bats0, i as int, p_start, s_start, now),
                            popup,
                            Mark { x: at.x, y: at.y, amount: 1 },
                        );
                    }
                    dmg_pop.push(popup);
                    *screen_shake_amount = add_shake(*screen_shake_amount, HIT_SHAKE);
                    enemies[i].hp = enemies[i].hp - 1000;
                }
            }
        }
        i += 1;
    }
}

/// Where a flying enemy appears for a player at `(px, py)`: sixty-four
/// pixels to the side that it flies away from, at the player's height
/// times `height` thousandths.
pub open spec fn bat_spawn_point(px: i32, py: i32, side: i32, height: i32) -> Position {
    let x_dir = if side == 0 {
        -1int
    } else {
        1int
    };
    Position {
        x: clamp_i32(px - 64000 * x_dir) as i32,
        y: clamp_i32(trunc_div(py * height, 1000)) as i32,
    }
}

/// Adds a flying enemy worth `given_xp` at the spawn point that the two
/// draws name; a `side` of nought sends it flying to the left.
pub fn spawn_bat_at(
    enemies: &mut Vec<BatEnemy>,
    player_pos_x: i32,
    player_pos_y: i32,
    given_xp: i64,
    side: i32,
    height: i32,
    now: u64,
)
    ensures
        final(enemies)@.len() == old(enemies)@.len() + 1,
        final(enemies)@.take(old(enemies)@.len() as int) == old(enemies)@,
        final(enemies)@.last().fresh(
            bat_spawn_point(player_pos_x, player_pos_y, side, height).x,
            bat_spawn_point(player_pos_x, player_pos_y, side, height).y,
            if side == 0 {
                -1i32
            } else {
                1i32
            },
            given_xp,
            now,
        ),
{
    let x_dir: i32 = if side == 0 {
        -1
    } else {
        1
    };
    proof {
        lemma_mul_bound(player_pos_y as int, height as int, 2147483648, 2147483648);
    }
    let scaled: i64 = (player_pos_y as i64) * (height as i64);
    let y: i64 = if scaled >= 0 {
        scaled / 1000
    } else {
        -((-scaled) / 1000)
    };
    let x: i32 = saturate(player_pos_x as i128 - 64000 * (x_dir as i128));
    enemies.push(BatEnemy::new(x, saturate(y as i128), x_dir, given_xp, now));
    assert(enemies@.take(old(enemies)@.len() as int) =~= old(enemies)@);
}

/// Adds a flying enemy worth `given_xp` to the left or the right of the
/// player, at half to twice the player's height.
pub fn spawn_bat(enemies: &mut Vec<BatEnemy>, player_pos_x: i32, player_pos_y: i32, given_xp: i64, now: u64)
    ensures
        final(enemies)@.len() == old(enemies)@.len() + 1,
        final(enemies)@.take(old(enemies)@.len() as int) == old(enemies)@,
        exists|side: i32, height: i32|
            0 <= side <= 1 && 500 <= height < 2000 && final(enemies)@.last().fresh(
                (#[trigger] bat_spawn_point(player_pos_x, player_pos_y, side, height)).x,
                bat_spawn_point(player_pos_x, player_pos_y, side, height).y,
                if side == 0 {
                    -1i32
                } else {
                    1i32
                },
                given_xp,
                now,
            ),
{
    let side: i32 = random_in_range(0, 2);
    let height: i32 = random_in_range(500, 2000);
    spawn_bat_at(enemies, player_pos_x, player_pos_y, given_xp, side, height, now);
}

} // verus!
