//! Bullets: aimed once when they appear, then flying straight while they
//! trail particles.

use vstd::prelude::*;
use crate::animation::Rect;
use crate::enemies::Enemies;
use crate::fixed::{clamp_i32, lemma_mul_bound, saturate, trunc_div};
use crate::particles::{shaped, spawn_particle, Jitter, Particle, ParticleType};
use crate::pool::Pooled;
use crate::render::{Atlas, Color, DrawCommand, DrawKind};
use crate::spatial::{
    capped_distance, dist, lemma_capped_distance_is_min, normalized, rounded_distance, unit_vector,
    Position,
};

verus! {

/// How far a target may be for a bullet to be aimed at it, in
/// thousandths of a pixel.
pub const AIM_RANGE: i32 = 128000;

/// A bullet of the player or of an enemy. Its direction is a unit vector in
/// thousandths that points from the target back to the shooter; the bullet
/// flies against it.
#[derive(Clone, Copy, Debug, PartialEq, Eq, Structural)]
pub struct Bullet {
    pub x: i32,
    pub y: i32,
    pub dir_x: i32,
    pub dir_y: i32,
    pub active: bool,
}

/// How far a bullet flies along one axis in `delta` milliseconds: twenty
/// pixels a second times that part of its direction.
pub open spec fn flight(dir: int, delta: int) -> int {
    trunc_div(dir * delta * 20, 1000)
}

fn flight_step(dir: i32, delta: u32) -> (s: i64)
    ensures
        s == flight(dir as int, delta as int),
{
    proof {
        lemma_mul_bound(dir as int, delta as int, 2147483648, 4294967295);
    }
    let n: i128 = (dir as i128) * (delta as i128) * 20;
    let q: i128 = if n >= 0 {
        n / 1000
    } else {
        -((-n) / 1000)
    };
    proof {
        crate::fixed::lemma_trunc_div_bound(n as int, 1000, 184467440694145843200);
    }
    q as i64
}

impl Bullet {
    /// Where the bullet is.
    pub open spec fn position(&self) -> Position {
        Position { x: self.x, y: self.y }
    }

    /// The bullet after `delta` milliseconds; one that is spent stays where
    /// it is.
    pub open spec fn flown(self, delta: u32) -> Bullet {
        if self.active {
            Bullet {
                x: clamp_i32(self.x - flight(self.dir_x as int, delta as int)) as i32,
                y: clamp_i32(self.y - flight(self.dir_y as int, delta as int)) as i32,
                ..self
            }
        } else {
            self
        }
    }

    /// The command that paints the bullet in the colour `tint`.
    pub open spec fn drawn(self, tint: Color) -> DrawCommand {
        DrawCommand {
            kind: DrawKind::Sprite {
                atlas: Atlas::Main,
                source: Some(Rect { x: 40000, y: 2000, w: 8000, h: 8000 }),
            },
            x: self.x,
            y: self.y,
            w: 8000,
            h: 8000,
            flip_x: false,
            tint,
        }
    }
}

impl Pooled for Bullet {
    open spec fn live_spec(&self) -> bool {
        self.active
    }

    fn live(&self) -> (b: bool) {
        self.active
    }
}

/// The places of the bullets among the first `upto` that are not spent.
pub open spec fn trail_points(bullets: Seq<Bullet>, upto: int) -> Seq<Position>
    decreases upto,
{
    if upto <= 0 || upto > bullets.len() {
        Seq::empty()
    } else if bullets[upto - 1].active {
        trail_points(bullets, upto - 1).push(bullets[upto - 1].position())
    } else {
        trail_points(bullets, upto - 1)
    }
}

/// `p` is a particle of the given kind that appeared at `at` at `now`,
/// jittered in some way.
pub open spec fn is_spark(p: Particle, kind: ParticleType, at: Position, now: u64) -> bool {
    exists|j: Jitter| #[trigger] j.wf() && p == shaped(kind, at.x, at.y, now, j)
}

/// `after` is `before` with one new particle of the given kind behind it
/// for each of `points`, in their order.
pub open spec fn trailed(
    before: Seq<Particle>,
    after: Seq<Particle>,
    points: Seq<Position>,
    kind: ParticleType,
    now: u64,
) -> bool {
    &&& after.len() == before.len() + points.len()
    &&& after.take(before.len() as int) == before
    &&& forall|k: int|
        0 <= k < points.len() ==> is_spark(#[trigger] after[before.len() + k], kind, points[k], now)
}

proof fn lemma_trailed_push(
    before: Seq<Particle>,
    after: Seq<Particle>,
    points: Seq<Position>,
    kind: ParticleType,
    now: u64,
    at: Position,
    j: Jitter,
)
    requires
        trailed(before, after, points, kind, now),
        j.wf(),
    ensures
        trailed(
            before,
            after.push(shaped(kind, at.x, at.y, now, j)),
            points.push(at),
            kind,
            now,
        ),
{
    let after2 = after.push(shaped(kind, at.x, at.y, now, j));
    let points2 = points.push(at);
    assert(after2.take(before.len() as int) =~= after.take(before.len() as int));
    assert forall|k: int| 0 <= k < points2.len() implies is_spark(
        #[trigger] after2[before.len() + k],
        kind,
        points2[k],
        now,
    ) by {
        if k < points.len() {
            assert(after2[before.len() + k] == after[before.len() + k]);
        } else {
            assert(j.wf() && after2[before.len() + k] == shaped(kind, at.x, at.y, now, j));
        }
    }
}

fn fly(bullets: &mut Vec<Bullet>, particles: &mut Vec<Particle>, delta: u32, now: u64, kind: ParticleType)
    ensures
        final(bullets)@.len() == old(bullets)@.len(),
        forall|i: int|
            0 <= i < old(bullets)@.len() ==> #[trigger] final(bullets)@[i] == old(bullets)@[i].flown(
                delta,
            ),
        trailed(
            old(particles)@,
            final(particles)@,
            trail_points(final(bullets)@, final(bullets)@.len() as int),
            kind,
            now,
        ),
{
    let n: usize = bullets.len();
    let mut i: usize = 0;
    assert(particles@.take(particles@.len() as int) =~= particles@);
    while i < n
        invariant
            i <= n,
            n == bullets@.len(),
            n == old(bullets)@.len(),
            forall|k: int| 0 <= k < i ==> #[trigger] bullets@[k] == old(bullets)@[k].flown(delta),
            forall|k: int| i <= k < n ==> #[trigger] bullets@[k] == old(bullets)@[k],
            trailed(old(particles)@, particles@, trail_points(bullets@, i as int), kind, now),
        decreases n - i,
    {
        let ghost before = bullets@;
        let ghost points = trail_points(bullets@, i as int);
        if bullets[i].active {
            let sx: i64 = flight_step(bullets[i].dir_x, delta);
            let sy: i64 = flight_step(bullets[i].dir_y, delta);
            bullets[i].x = saturate(bullets[i].x as i128 - sx as i128);
            bullets[i].y = saturate(bullets[i].y as i128 - sy as i128);
            let ghost sparks = particles@;
            spawn_particle(particles, bullets[i].x, bullets[i].y, kind, now);
            proof {
                lemma_trail_points_prefix(before, bullets@, i as int);
                let at = bullets@[i as int].position();
                let j = choose|j: Jitter| #[trigger]
                    j.wf() && particles@ == sparks.push(shaped(kind, at.x, at.y, now, j));
                lemma_trailed_push(old(particles)@, sparks, points, kind, now, at, j);
            }
        } else {
            proof {
                lemma_trail_points_prefix(before, bullets@, i as int);
            }
        }
        i += 1;
    }
}

/// The places of the first `upto` live bullets depend on those bullets
/// alone.
proof fn lemma_trail_points_prefix(a: Seq<Bullet>, b: Seq<Bullet>, upto: int)
    requires
        0 <= upto <= a.len(),
        a.len() == b.len(),
        forall|k: int| 0 <= k < upto ==> a[k] == b[k],
    ensures
        trail_points(a, upto) == trail_points(b, upto),
    decreases upto,
{
    if upto > 0 {
        lemma_trail_points_prefix(a, b, upto - 1);
    }
}

/// Moves every live bullet of the player on and lets it trail a particle.
pub fn update_bullets(bullets: &mut Vec<Bullet>, particles: &mut Vec<Particle>, delta: u32, now: u64)
    ensures
        final(bullets)@.len() == old(bullets)@.len(),
        forall|i: int|
            0 <= i < old(bullets)@.len() ==> #[trigger] final(bullets)@[i] == old(bullets)@[i].flown(
                delta,
            ),
        trailed(
            old(particles)@,
            final(particles)@,
            trail_points(final(bullets)@, final(bullets)@.len() as int),
            ParticleType::ShotParticle,
            now,
        ),
{
    fly(bullets, particles, delta, now, ParticleType::ShotParticle);
}

/// Moves every live bullet of the enemies on and lets it trail a particle.
pub fn update_enemy_bullets(bullets: &mut Vec<Bullet>, particles: &mut Vec<Particle>, delta: u32, now: u64)
    ensures
        final(bullets)@.len() == old(bullets)@.len(),
        forall|i: int|
            0 <= i < old(bullets)@.len() ==> #[trigger] final(bullets)@[i] == old(bullets)@[i].flown(
                delta,
            ),
        trailed(
            old(particles)@,
            final(particles)@,
            trail_points(final(bullets)@, final(bullets)@.len() as int),
            ParticleType::EnemyShotParticle,
            now,
        ),
{
    fly(bullets, particles, delta, now, ParticleType::EnemyShotParticle);
}

/// The aim after the first `upto` enemies have been looked at: the capped
/// distance to the nearest so far and the direction from it back to
/// `origin`. An enemy counts as nearer only if it is strictly so, which
/// leaves the earlier of two equally near ones as the target. With no
/// enemy in range the direction is the diagonal `(1, 1)`.
pub open spec fn aimed(origin: Position, enemies: Seq<Enemies>, upto: int) -> (int, (int, int))
    decreases upto,
{
    if upto <= 0 || upto > enemies.len() {
        (128000, (1000, 1000))
    } else {
        let prev = aimed(origin, enemies, upto - 1);
        let at = enemies[upto - 1].position;
        let d = capped_distance(origin, at, prev.0);
        if d < prev.0 {
            (d, normalized(origin.x - at.x, origin.y - at.y))
        } else {
            prev
        }
    }
}

/// The aim is at the nearest enemy within range, and at the earliest of
/// several that are equally near: the distance that it holds is no larger
/// than the rounded distance to any enemy that was looked at; where it is
/// the full range, no enemy was in range and the direction is the
/// diagonal; and where it is less, it is the rounded distance to an enemy
/// before which all enemies are farther, and the direction points from
/// that enemy back to `origin`.
pub proof fn lemma_aimed_at_nearest(origin: Position, enemies: Seq<Enemies>, upto: int)
    requires
        0 <= upto <= enemies.len(),
    ensures
        0 <= aimed(origin, enemies, upto).0 <= 128000,
        forall|k: int|
            0 <= k < upto ==> aimed(origin, enemies, upto).0 <= rounded_distance(
                origin,
                (#[trigger] enemies[k]).position,
            ),
        aimed(origin, enemies, upto).0 == 128000 ==> aimed(origin, enemies, upto).1 == (
            1000int,
            1000int,
        ),
        aimed(origin, enemies, upto).0 < 128000 ==> exists|k: int|
            0 <= k < upto && rounded_distance(origin, (#[trigger] enemies[k]).position) == aimed(
                origin,
                enemies,
                upto,
            ).0 && aimed(origin, enemies, upto).1 == normalized(
                origin.x - enemies[k].position.x,
                origin.y - enemies[k].position.y,
            ) && forall|j: int|
                0 <= j < k ==> rounded_distance(origin, (#[trigger] enemies[j]).position) > aimed(
                    origin,
                    enemies,
                    upto,
                ).0,
    decreases upto,
{
    if upto > 0 {
        lemma_aimed_at_nearest(origin, enemies, upto - 1);
        let prev = aimed(origin, enemies, upto - 1);
        let at = enemies[upto - 1].position;
        lemma_capped_distance_is_min(origin, at, prev.0);
        let d = capped_distance(origin, at, prev.0);
        let now = aimed(origin, enemies, upto);
        if d < prev.0 {
            assert(rounded_distance(origin, enemies[upto - 1].position) == now.0);
            assert forall|j: int| 0 <= j < upto - 1 implies rounded_distance(
                origin,
                (#[trigger] enemies[j]).position,
            ) > now.0 by {}
        } else if prev.0 < 128000 {
            let k = choose|k: int|
                0 <= k < upto - 1 && rounded_distance(origin, (#[trigger] enemies[k]).position)
                    == prev.0 && prev.1 == normalized(
                    origin.x - enemies[k].position.x,
                    origin.y - enemies[k].position.y,
                ) && forall|j: int|
                    0 <= j < k ==> rounded_distance(origin, (#[trigger] enemies[j]).position)
                        > prev.0;
            assert(0 <= k < upto && rounded_distance(origin, enemies[k].position) == now.0);
        }
    }
}

/// The bullet that a shooter at `(x, y)` fires in the direction `dir`: it
/// starts two pixels right of and below the shooter.
pub open spec fn fired(x: i32, y: i32, dir: (int, int)) -> Bullet {
    Bullet {
        x: clamp_i32(x + 2000) as i32,
        y: clamp_i32(y + 2000) as i32,
        dir_x: dir.0 as i32,
        dir_y: dir.1 as i32,
        active: true,
    }
}

/// Fires a bullet of the player, who stands at `(x, y)`, at the nearest
/// enemy within range.
pub fn spawn_bullet(bullets: &mut Vec<Bullet>, enemies: &Vec<Enemies>, x: &i32, y: &i32)
    ensures
        final(bullets)@ == old(bullets)@.push(
            fired(*x, *y, aimed(Position { x: *x, y: *y }, enemies@, enemies@.len() as int).1),
        ),
{
    let origin = Position { x: *x, y: *y };
    let mut best: i32 = AIM_RANGE;
    let mut dir: (i32, i32) = (1000, 1000);
    let n: usize = enemies.len();
    let mut i: usize = 0;
    while i < n
        invariant
            i <= n,
            n == enemies@.len(),
            origin == (Position { x: *x, y: *y }),
            (best as int, (dir.0 as int, dir.1 as int)) == aimed(origin, enemies@, i as int),
            -1000 <= dir.0 <= 1000,
            -1000 <= dir.1 <= 1000,
        decreases n - i,
    {
        let at: Position = enemies[i].position;
        let d: i32 = dist(origin, at, best);
        if d < best {
            best = d;
            dir = unit_vector(at, origin);
        }
        i += 1;
    }
    bullets.push(
        Bullet {
            x: saturate(*x as i128 + 2000),
            y: saturate(*y as i128 + 2000),
            dir_x: dir.0,
            dir_y: dir.1,
            active: true,
        },
    );
}

/// The commands for the live bullets of `s`, in their order, in the colour
/// `tint`.
pub open spec fn painted_bullets(s: Seq<Bullet>, tint: Color) -> Seq<DrawCommand> {
    s.filter_map(
        |b: Bullet|
            if b.active {
                Some(b.drawn(tint))
            } else {
                None
            },
    )
}

fn paint(bullets: &Vec<Bullet>, tint: Color) -> (commands: Vec<DrawCommand>)
    ensures
        commands@ == painted_bullets(bullets@, tint),
{
    let ghost f = |b: Bullet|
        if b.active {
            Some(b.drawn(tint))
        } else {
            None
        };
    let mut commands: Vec<DrawCommand> = Vec::new();
    let n: usize = bullets.len();
    let mut i: usize = 0;
    assert(bullets@.take(0).filter_map(f) =~= Seq::<DrawCommand>::empty());
    while i < n
        invariant
            i <= n,
            n == bullets@.len(),
            f == |b: Bullet|
                if b.active {
                    Some(b.drawn(tint))
                } else {
                    None
                },
            commands@ == bullets@.take(i as int).filter_map(f),
        decreases n - i,
    {
        proof {
            bullets@.lemma_filter_map_take_succ(f, i as int);
        }
        if bullets[i].active {
            commands.push(
                DrawCommand {
                    kind: DrawKind::Sprite {
                        atlas: Atlas::Main,
                        source: Some(Rect::new(40000, 2000, 8000, 8000)),
                    },
                    x: bullets[i].x,
                    y: bullets[i].y,
                    w: 8000,
                    h: 8000,
                    flip_x: false,
                    tint,
                },
            );
        }
        i += 1;
    }
    assert(bullets@.take(n as int) =~= bullets@);
    commands
}

/// What there is to paint of the player's bullets: the live ones, white.
pub fn draw_bullets(bullets: &Vec<Bullet>) -> (commands: Vec<DrawCommand>)
    ensures
        commands@ == painted_bullets(bullets@, Color { r: 1000, g: 1000, b: 1000, a: 1000 }),
{
    paint(bullets, Color::white())
}

/// What there is to paint of the enemies' bullets: the live ones, pink.
pub fn draw_enemy_bullets(bullets: &Vec<Bullet>) -> (commands: Vec<DrawCommand>)
    ensures
        commands@ == painted_bullets(bullets@, Color { r: 1000, g: 430, b: 760, a: 1000 }),
{
    paint(bullets, Color::pink())
}

} // verus!
