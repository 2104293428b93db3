//! Ground enemies: they home in on the player, shove one another apart and
//! hurt on contact.

use vstd::prelude::*;
use crate::animation::{Animation, Rect};
use crate::fixed::{clamp_i32, lemma_mul_bound, saturate, trunc_div};
use crate::player::{idle_animation, idle_frames, loops_from_start, Player};
use crate::pool::Pooled;
use crate::random::random_in_range;
use crate::render::{Atlas, Color, DrawCommand, DrawKind};
use crate::spatial::{
    capped_distance, col, collides, dist, get_dir_, heading, Collider, Heading, Position,
};

verus! {

/// The distance under which two ground enemies shove, and under which an
/// enemy touches the player, in thousandths of a pixel.
pub const CONTACT_RADIUS: i32 = 8000;

/// The cap of the distance that the shove is measured with.
pub const SHOVE_CAP: i32 = 10000;

/// What a touch of an enemy takes off the player's health.
pub const CONTACT_DAMAGE: i64 = 10_000;

/// What a blow adds to the screen shake.
pub const BLOW_SHAKE: i64 = 4000;

/// What a hit on an enemy adds to the screen shake.
pub const HIT_SHAKE: i64 = 1000;

/// A ground enemy.
pub struct Enemies {
    pub position: Position,
    pub collider: Collider,
    pub alive: bool,
    pub hp: i64,
    pub anims: Animation,
    pub curr_frame: Option<Rect>,
    /// What the kill is worth; set when the enemy appears.
    pub given_xp: i64,
}

/// `a + b`, held within `i64`.
pub open spec fn shake_plus(a: i64, b: i64) -> i64 {
    crate::director::clamp_i64(a + b) as i64
}

pub fn add_shake(a: i64, b: i64) -> (r: i64)
    ensures
        r == shake_plus(a, b),
{
    crate::director::saturate_i64(a as i128 + b as i128)
}

/// How far an enemy that stands `offset` from the player along one axis
/// closes in within `delta` milliseconds: three tenths of the offset a
/// second.
pub open spec fn closing(offset: int, delta: int) -> int {
    trunc_div(offset * delta * 3, 10000)
}

fn closing_step(offset: i64, delta: u32) -> (s: i64)
    requires
        -4294967295 <= offset <= 4294967295,
    ensures
        s == closing(offset as int, delta as int),
{
    proof {
        lemma_mul_bound(offset as int, delta as int, 4294967295, 4294967295);
    }
    let n: i128 = (offset as i128) * (delta as i128) * 3;
    let q: i128 = if n >= 0 {
        n / 10000
    } else {
        -((-n) / 10000)
    };
    proof {
        crate::fixed::lemma_trunc_div_bound(n as int, 10000, 55340232195498147075);
    }
    q as i64
}

/// The place that a shove off `other` moves `at` to: where the two stand
/// nearer than the contact radius, `at` moves away from `other` along the
/// line that joins them, by what is missing to that radius. The heading
/// from `at` to `other` holds the sine for the horizontal offset and the
/// cosine for the vertical one, and the shove goes against both. Two
/// enemies on one spot part vertically.
pub open spec fn shoved(at: Position, other: Position) -> Position {
    if collides(at, other, 8000) {
        let dif = 8000 - capped_distance(at, other, 10000);
        let h = heading(at, other);
        Position {
            x: clamp_i32(at.x - trunc_div(h.sin * dif, 1000)) as i32,
            y: clamp_i32(at.y - trunc_div(h.cos * dif, 1000)) as i32,
        }
    } else {
        at
    }
}

/// A shove moves an enemy away from the other and never toward it: along
/// each axis the enemy ends no nearer to the other's side than it began,
/// and it stays on the line of an axis that the two share. Enemies that do
/// not touch are not shoved at all.
pub proof fn lemma_shove_pushes_apart(at: Position, other: Position)
    ensures
        !collides(at, other, 8000) ==> shoved(at, other) == at,
        other.x > at.x ==> shoved(at, other).x <= at.x,
        other.x < at.x ==> shoved(at, other).x >= at.x,
        other.x == at.x && other.y != at.y ==> shoved(at, other).x == at.x,
        other.y > at.y ==> shoved(at, other).y <= at.y,
        other.y < at.y ==> shoved(at, other).y >= at.y,
        other.y == at.y && other.x != at.x ==> shoved(at, other).y == at.y,
{
    if collides(at, other, 8000) {
        crate::spatial::lemma_capped_distance_is_min(at, other, 10000);
        crate::spatial::lemma_heading_signs(at, other);
        let d = crate::spatial::rounded_distance(at, other);
        if d >= 8000 {
            assert(d * d >= 8000 * 8000) by (nonlinear_arith)
                requires
                    d >= 8000,
            ;
        }
        let dif = 8000 - capped_distance(at, other, 10000);
        let h = heading(at, other);
        lemma_mul_bound(h.sin as int, dif, 1000, 8000);
        lemma_mul_bound(h.cos as int, dif, 1000, 8000);
        assert(h.sin >= 0 ==> h.sin * dif >= 0) by (nonlinear_arith)
            requires
                dif > 0,
        ;
        assert(h.sin <= 0 ==> h.sin * dif <= 0) by (nonlinear_arith)
            requires
                dif > 0,
        ;
        assert(h.cos >= 0 ==> h.cos * dif >= 0) by (nonlinear_arith)
            requires
                dif > 0,
        ;
        assert(h.cos <= 0 ==> h.cos * dif <= 0) by (nonlinear_arith)
            requires
                dif > 0,
        ;
        crate::fixed::lemma_trunc_div_bound(h.sin * dif, 1000, 8_000_000);
        crate::fixed::lemma_trunc_div_bound(h.cos * dif, 1000, 8_000_000);
    }
}

/// Of two touching enemies on one horizontal or vertical line, the shove
/// moves the one straight away from the other along that line until the
/// two are just the contact radius apart.
pub proof fn lemma_shove_along_axis(at: Position, other: Position)
    requires
        collides(at, other, 8000),
        at != other,
        at.x == other.x || at.y == other.y,
    ensures
        at.y == other.y && other.x > at.x ==> shoved(at, other) == (Position {
            x: clamp_i32(other.x - 8000) as i32,
            y: at.y,
        }),
        at.y == other.y && other.x < at.x ==> shoved(at, other) == (Position {
            x: clamp_i32(other.x + 8000) as i32,
            y: at.y,
        }),
        at.x == other.x && other.y > at.y ==> shoved(at, other) == (Position {
            x: at.x,
            y: clamp_i32(other.y - 8000) as i32,
        }),
        at.x == other.x && other.y < at.y ==> shoved(at, other) == (Position {
            x: at.x,
            y: clamp_i32(other.y + 8000) as i32,
        }),
{
    crate::spatial::lemma_capped_distance_is_min(at, other, 10000);
    crate::spatial::lemma_heading_along_axis(at, other);
    let d = crate::spatial::rounded_distance(at, other);
    if d >= 8000 {
        assert(d * d >= 8000 * 8000) by (nonlinear_arith)
            requires
                d >= 8000,
        ;
    }
    let dif = 8000 - d;
    assert(1000 * dif / 1000 == dif && 0 * dif == 0);
    assert((-1000) * dif == -(1000 * dif));
}

/// The place of an enemy after the shoves off the members of `others` from
/// place `j` on, one after the other.
pub open spec fn shoved_along(at: Position, others: Seq<Enemies>, j: int) -> Position
    decreases others.len() - j,
{
    if j < 0 || j >= others.len() {
        at
    } else {
        shoved_along(shoved(at, others[j].position), others, j + 1)
    }
}

/// A shove against `other`, as `shoved` says.
pub fn shove(at: Position, other: Position) -> (to: Position)
    ensures
        to == shoved(at, other),
{
    if col(at, other, CONTACT_RADIUS) {
        let d: i32 = dist(at, other, SHOVE_CAP);
        let h: Heading = get_dir_(at, other);
        proof {
            crate::spatial::lemma_capped_distance_bounds(at, other, 10000);
        }
        let dif: i64 = CONTACT_RADIUS as i64 - d as i64;
        proof {
            lemma_mul_bound(h.cos as int, dif as int, 1000, 8000);
            lemma_mul_bound(h.sin as int, dif as int, 1000, 8000);
        }
        let px: i64 = (h.sin as i64) * dif;
        let py: i64 = (h.cos as i64) * dif;
        let mx: i64 = if px >= 0 {
            px / 1000
        } else {
            -((-px) / 1000)
        };
        let my: i64 = if py >= 0 {
            py / 1000
        } else {
            -((-py) / 1000)
        };
        Position {
            x: saturate(at.x as i128 - mx as i128),
            y: saturate(at.y as i128 - my as i128),
        }
    } else {
        at
    }
}

impl Enemies {
    /// The animation is sound.
    pub open spec fn wf(&self) -> bool {
        self.anims.wf()
    }

    /// The enemy is as it appears at `(x, y)`, worth `given_xp`.
    pub open spec fn fresh(&self, x: i32, y: i32, given_xp: i64) -> bool {
        &&& self.position == (Position { x, y })
        &&& self.collider == (Collider { x: 72000, y: 90000, width: 8, height: 8, radius: 4000 })
        &&& self.hp == 2000
        &&& self.alive
        &&& loops_from_start(self.anims, idle_frames())
        &&& self.curr_frame == Some(Rect { x: 1000, y: 1000, w: 9000, h: 9000 })
        &&& self.given_xp == given_xp
    }

    pub fn get_given_xp(&self) -> (xp: i64)
        ensures
            xp == self.given_xp,
    {
        self.given_xp
    }

    /// A ground enemy at `(x, y)` whose kill is worth `given_xp`.
    pub fn new(x: i32, y: i32, given_xp: i64) -> (e: Enemies)
        ensures
            e.fresh(x, y, given_xp),
    {
        Enemies {
            position: Position { x, y },
            collider: Collider { x: 72000, y: 90000, width: 8, height: 8, radius: 4000 },
            hp: 2000,
            alive: true,
            anims: idle_animation(),
            curr_frame: Some(Rect::new(1000, 1000, 9000, 9000)),
            given_xp,
        }
    }

    /// The enemy after `delta` milliseconds of homing in on `target`; one
    /// without health stays where it is.
    pub open spec fn homed(self, target: Position, delta: u32) -> Enemies {
        if self.hp > 0 {
            Enemies {
                position: Position {
                    x: clamp_i32(self.position.x - closing(self.position.x - target.x, delta as int)) as i32,
                    y: clamp_i32(self.position.y - closing(self.position.y - target.y, delta as int)) as i32,
                },
                ..self
            }
        } else {
            self
        }
    }

    /// The enemy once its animation has run for `delta` more milliseconds.
    pub open spec fn animated(self, delta: u64) -> Enemies {
        Enemies {
            anims: self.anims.advanced(delta),
            curr_frame: Some(self.anims.advanced(delta).source()),
            ..self
        }
    }

    /// The command that paints the collider of the enemy: a faint red
    /// circle round the middle of its body.
    pub open spec fn collider_drawn(&self) -> DrawCommand {
        DrawCommand {
            kind: DrawKind::Circle,
            x: clamp_i32(self.position.x + 4000) as i32,
            y: clamp_i32(self.position.y + 4000) as i32,
            w: self.collider.radius,
            h: self.collider.radius,
            flip_x: false,
            tint: Color { r: 1000, g: 0, b: 0, a: 235 },
        }
    }

    /// The command that paints the enemy for a player at the horizontal
    /// place `x`: its frame, mirrored where it stands to the right of the
    /// player.
    pub open spec fn drawn(&self, x: i32) -> DrawCommand {
        DrawCommand {
            kind: DrawKind::Sprite { atlas: Atlas::Enemies, source: self.curr_frame },
            x: self.position.x,
            y: self.position.y,
            w: 9000,
            h: 9000,
            flip_x: self.position.x > x,
            tint: Color { r: 1000, g: 1000, b: 1000, a: 1000 },
        }
    }
}

impl Pooled for Enemies {
    open spec fn live_spec(&self) -> bool {
        self.alive
    }

    fn live(&self) -> (b: bool) {
        self.alive
    }
}

/// Every enemy of the pool homes in on the player at `(x, y)`.
pub fn update_enemies_position(enemies: &mut Vec<Enemies>, x: &i32, y: &i32, delta: u32)
    ensures
        final(enemies)@.len() == old(enemies)@.len(),
        forall|i: int|
            0 <= i < old(enemies)@.len() ==> #[trigger] final(enemies)@[i] == old(enemies)@[i].homed(
                Position { x: *x, y: *y },
                delta,
            ),
{
    let n: usize = enemies.len();
    let mut i: usize = 0;
    while i < n
        invariant
            i <= n,
            n == enemies@.len(),
            n == old(enemies)@.len(),
            forall|k: int|
                0 <= k < i ==> #[trigger] enemies@[k] == old(enemies)@[k].homed(
                    Position { x: *x, y: *y },
                    delta,
                ),
            forall|k: int| i <= k < n ==> #[trigger] enemies@[k] == old(enemies)@[k],
        decreases n - i,
    {
        if enemies[i].hp > 0 {
            let ex: i32 = enemies[i].position.x;
            let ey: i32 = enemies[i].position.y;
            let sx: i64 = closing_step(ex as i64 - *x as i64, delta);
            let sy: i64 = closing_step(ey as i64 - *y as i64, delta);
            enemies[i].position.x = saturate(ex as i128 - sx as i128);
            enemies[i].position.y = saturate(ey as i128 - sy as i128);
        }
        i += 1;
    }
}

/// Every enemy but the last is shoved away from those that follow it in
/// the pool, one after the other; of each pair that touches only the
/// earlier enemy moves, and nothing but places changes.
pub fn update_enemies_pushing(enemies: &mut Vec<Enemies>)
    ensures
        final(enemies)@.len() == old(enemies)@.len(),
        forall|i: int|
            0 <= i < old(enemies)@.len() ==> #[trigger] final(enemies)@[i] == (Enemies {
                position: shoved_along(old(enemies)@[i].position, old(enemies)@, i + 1),
                ..old(enemies)@[i]
            }),
{
    let n: usize = enemies.len();
    let mut i: usize = 0;
    while i < n
        invariant
            i <= n,
            n == enemies@.len(),
            n == old(enemies)@.len(),
            forall|k: int|
                0 <= k < i ==> #[trigger] enemies@[k] == (Enemies {
                    position: shoved_along(old(enemies)@[k].position, old(enemies)@, k + 1),
                    ..old(enemies)@[k]
                }),
            forall|k: int| i <= k < n ==> #[trigger] enemies@[k] == old(enemies)@[k],
        decreases n - i,
    {
        let mut j: usize = i + 1;
        let mut at: Position = enemies[i].position;
        while j < n
            invariant
                i < n,
                i < j <= n,
                n == enemies@.len(),
                n == old(enemies)@.len(),
                forall|k: int| i <= k < n ==> #[trigger] enemies@[k] == old(enemies)@[k],
                shoved_along(at, old(enemies)@, j as int) == shoved_along(
                    old(enemies)@[i as int].position,
                    old(enemies)@,
                    i + 1,
                ),
            decreases n - j,
        {
            at = shove(at, enemies[j].position);
            j += 1;
        }
        enemies[i].position = at;
        i += 1;
    }
}

/// A touch of an enemy at `at` hurts the player at `now`.
pub open spec fn touch_lands(p: Player, at: Position, now: u64) -> bool {
    p.vulnerable_at(now) && collides(p.position, at, 8000)
}

/// The player and the screen shake after the touches of the enemies from
/// place `i` on, each taken in its turn: a touch that lands takes ten
/// points of health, begins the invulnerability and adds four to the shake.
pub open spec fn after_touches(enemies: Seq<Enemies>, i: int, p: Player, shake: i64, now: u64) -> (
    Player,
    i64,
)
    decreases enemies.len() - i,
{
    if i < 0 || i >= enemies.len() {
        (p, shake)
    } else if touch_lands(p, enemies[i].position, now) {
        after_touches(enemies, i + 1, p.struck(10_000, now), shake_plus(shake, 4000), now)
    } else {
        after_touches(enemies, i + 1, p, shake, now)
    }
}

/// Touches leave a sound player sound and change nothing of it but its
/// health, which does not grow, and its invulnerability.
pub proof fn lemma_touches_hurt(enemies: Seq<Enemies>, i: int, p: Player, shake: i64, now: u64)
    requires
        p.wf(),
    ensures
        after_touches(enemies, i, p, shake, now).0.wf(),
        after_touches(enemies, i, p, shake, now).0.hurt_from(p),
    decreases enemies.len() - i,
{
    if !(i < 0 || i >= enemies.len()) {
        crate::player::lemma_struck(p, 10_000, now);
        if touch_lands(p, enemies[i].position, now) {
            lemma_touches_hurt(enemies, i + 1, p.struck(10_000, now), shake_plus(shake, 4000), now);
        } else {
            lemma_touches_hurt(enemies, i + 1, p, shake, now);
        }
    }
}

/// Lets every enemy that touches the player hurt it.
pub fn update_enemies_colliding(
    enemies: &Vec<Enemies>,
    player: &mut Player,
    screen_shake_amount: &mut i64,
    now: u64,
)
    requires
        old(player).wf(),
    ensures
        final(player).wf(),
        final(player).hurt_from(*old(player)),
        (*final(player), *final(screen_shake_amount)) == after_touches(
            enemies@,
            0,
            *old(player),
            *old(screen_shake_amount),
            now,
        ),
{
    proof {
        lemma_touches_hurt(enemies@, 0, *player, *screen_shake_amount, now);
    }
    let n: usize = enemies.len();
    let mut i: usize = 0;
    while i < n
        invariant
            i <= n,
            n == enemies@.len(),
            player.wf(),
            after_touches(enemies@, i as int, *player, *screen_shake_amount, now) == after_touches(
                enemies@,
                0,
                *old(player),
                *old(screen_shake_amount),
                now,
            ),
        decreases n - i,
    {
        if col(player.position, enemies[i].position, CONTACT_RADIUS) {
            if player.take_damage(CONTACT_DAMAGE, now) {
                *screen_shake_amount = add_shake(*screen_shake_amount, BLOW_SHAKE);
            }
        }
        i += 1;
    }
}

/// Runs the animation of every enemy for `delta` milliseconds.
pub fn advance_enemy_animations(enemies: &mut Vec<Enemies>, delta: u64)
    requires
        forall|i: int| 0 <= i < old(enemies)@.len() ==> (#[trigger] old(enemies)@[i]).wf(),
    ensures
        final(enemies)@.len() == old(enemies)@.len(),
        forall|i: int|
            0 <= i < old(enemies)@.len() ==> #[trigger] final(enemies)@[i] == old(enemies)@[i].animated(delta) && final(enemies)@[i].wf(),
{
    let n: usize = enemies.len();
    let mut i: usize = 0;
    while i < n
        invariant
            i <= n,
            n == enemies@.len(),
            n == old(enemies)@.len(),
            forall|k: int| 0 <= k < n ==> (#[trigger] old(enemies)@[k]).wf(),
            forall|k: int|
                0 <= k < i ==> #[trigger] enemies@[k] == old(enemies)@[k].animated(delta)
                    && enemies@[k].wf(),
            forall|k: int| i <= k < n ==> #[trigger] enemies@[k] == old(enemies)@[k],
        decreases n - i,
    {
        assert(old(enemies)@[i as int].wf());
        let frame: Option<Rect> = enemies[i].anims.get_animation_source(delta);
        enemies[i].curr_frame = frame;
        i += 1;
    }
}

/// What there is to paint of the pool for a player at the horizontal place
/// `x`: one command for each enemy, in their order.
pub fn draw_enemies(enemies: &Vec<Enemies>, x: i32) -> (commands: Vec<DrawCommand>)
    ensures
        commands@ == enemies@.map_values(|e: Enemies| e.drawn(x)),
{
    let mut commands: Vec<DrawCommand> = Vec::new();
    let n: usize = enemies.len();
    let mut i: usize = 0;
    while i < n
        invariant
            i <= n,
            n == enemies@.len(),
            commands@ == enemies@.take(i as int).map_values(|e: Enemies| e.drawn(x)),
        decreases n - i,
    {
        let e = &enemies[i];
        commands.push(
            DrawCommand {
                kind: DrawKind::Sprite { atlas: Atlas::Enemies, source: e.curr_frame },
                x: e.position.x,
                y: e.position.y,
                w: 9000,
                h: 9000,
                flip_x: e.position.x > x,
                tint: Color::white(),
            },
        );
        i += 1;
        assert(commands@ =~= enemies@.take(i as int).map_values(|e: Enemies| e.drawn(x)));
    }
    assert(enemies@.take(n as int) =~= enemies@);
    commands
}

/// The colliders of the pool, one command for each enemy.
pub fn draw_enemies_collider(enemies: &Vec<Enemies>) -> (commands: Vec<DrawCommand>)
    ensures
        commands@ == enemies@.map_values(|e: Enemies| e.collider_drawn()),
{
    let mut commands: Vec<DrawCommand> = Vec::new();
    let n: usize = enemies.len();
    let mut i: usize = 0;
    while i < n
        invariant
            i <= n,
            n == enemies@.len(),
            commands@ == enemies@.take(i as int).map_values(|e: Enemies| e.collider_drawn()),
        decreases n - i,
    {
        let e = &enemies[i];
        commands.push(
            DrawCommand {
                kind: DrawKind::Circle,
                x: saturate(e.position.x as i128 + 4000),
                y: saturate(e.position.y as i128 + 4000),
                w: e.collider.radius,
                h: e.collider.radius,
                flip_x: false,
                tint: Color::from_rgba(255, 0, 0, 60),
            },
        );
        i += 1;
        assert(commands@ =~= enemies@.take(i as int).map_values(|e: Enemies| e.collider_drawn()));
    }
    assert(enemies@.take(n as int) =~= enemies@);
    commands
}

/// The cosine of the spawn direction, which is a whole number of radians:
/// nought, one or minus one.
pub open spec fn spawn_cos(direction: i32) -> int {
    if direction == 0 {
        1000
    } else {
        540
    }
}

/// The sine of the spawn direction.
pub open spec fn spawn_sin(direction: i32) -> int {
    if direction == 0 {
        0
    } else if direction > 0 {
        841
    } else {
        -841
    }
}

/// Where an enemy appears for a player at `(px, py)`: `radius` pixels off
/// along the spawn direction, on the far side for a `side` of nought.
pub open spec fn spawn_point(px: i32, py: i32, direction: i32, side: i32, radius: i32) -> Position {
    let sign = if side == 0 {
        -1int
    } else {
        1int
    };
    Position {
        x: clamp_i32(px + spawn_cos(direction) * radius * sign) as i32,
        y: clamp_i32(py + spawn_sin(direction) * radius * sign) as i32,
    }
}

/// Adds an enemy worth `given_xp` at the spawn point that the three draws
/// name.
pub fn spawn_enemy_at(
    enemies: &mut Vec<Enemies>,
    player_pos_x: &i32,
    player_pos_y: &i32,
    given_xp: i64,
    direction: i32,
    side: i32,
    radius: i32,
)
    ensures
        final(enemies)@.len() == old(enemies)@.len() + 1,
        final(enemies)@.take(old(enemies)@.len() as int) == old(enemies)@,
        final(enemies)@.last().fresh(
            spawn_point(*player_pos_x, *player_pos_y, direction, side, radius).x,
            spawn_point(*player_pos_x, *player_pos_y, direction, side, radius).y,
            given_xp,
        ),
{
    let c: i64 = if direction == 0 {
        1000
    } else {
        540
    };
    let s: i64 = if direction == 0 {
        0
    } else if direction > 0 {
        841
    } else {
        -841
    };
    proof {
        lemma_mul_bound(c as int, radius as int, 1000, 2147483648);
        lemma_mul_bound(s as int, radius as int, 1000, 2147483648);
    }
    let along: i64 = c * (radius as i64);
    let across: i64 = s * (radius as i64);
    proof {
        let cos = spawn_cos(direction);
        let sin = spawn_sin(direction);
        assert(cos * radius * 1 == along && cos * radius * (-1) == -along) by (nonlinear_arith)
            requires
                along == cos * radius,
        ;
        assert(sin * radius * 1 == across && sin * radius * (-1) == -across) by (nonlinear_arith)
            requires
                across == sin * radius,
        ;
    }
    let x: i32 = if side == 0 {
        saturate(*player_pos_x as i128 - along as i128)
    } else {
        saturate(*player_pos_x as i128 + along as i128)
    };
    let y: i32 = if side == 0 {
        saturate(*player_pos_y as i128 - across as i128)
    } else {
        saturate(*player_pos_y as i128 + across as i128)
    };
    enemies.push(Enemies::new(x, y, given_xp));
    assert(enemies@.take(old(enemies)@.len() as int) =~= old(enemies)@);
}

/// Adds an enemy worth `given_xp` somewhere round the player: sixty to
/// ninety-two pixels off, along one of three directions, on either side.
pub fn spawn_enemies(enemies: &mut Vec<Enemies>, player_pos_x: &i32, player_pos_y: &i32, given_xp: i64)
    ensures
        final(enemies)@.len() == old(enemies)@.len() + 1,
        final(enemies)@.take(old(enemies)@.len() as int) == old(enemies)@,
        exists|direction: i32, side: i32, radius: i32|
            -1 <= direction <= 1 && 0 <= side <= 1 && 60 <= radius <= 92 && final(enemies)@.last().fresh(
                (#[trigger] spawn_point(*player_pos_x, *player_pos_y, direction, side, radius)).x,
                spawn_point(*player_pos_x, *player_pos_y, direction, side, radius).y,
                given_xp,
            ),
{
    let direction: i32 = random_in_range(-1, 2);
    let side: i32 = random_in_range(0, 2);
    let radius: i32 = 60 + random_in_range(0, 33);
    spawn_enemy_at(enemies, player_pos_x, player_pos_y, given_xp, direction, side, radius);
}

} // verus!
