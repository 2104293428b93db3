//! Short-lived specks: the trail of a bullet, the wake of a dash, the drift
//! behind the title.

use vstd::prelude::*;
use crate::animation::Rect;
use crate::fixed::{clamp_i32, lemma_mul_bound, saturate, trunc_div};
use crate::pool::Pooled;
use crate::random::random_in_range;
use crate::render::{
    lemma_lerp_bounds, lerp, lerp_color, lerp_color_spec, lerp_spec, Atlas, Color, DrawCommand,
    DrawKind,
};
use crate::timer::Timer;

verus! {

/// A velocity in thousandths of a pixel a second, or any other pair of
/// lengths.
#[derive(Clone, Copy, Debug, PartialEq, Eq, Structural)]
pub struct Vec2 {
    pub x: i32,
    pub y: i32,
}

#[derive(Clone, Copy, Debug, PartialEq, Eq, Structural)]
pub struct Particle {
    pub lifetime: Timer,
    pub velocity_start: Vec2,
    pub velocity_end: Vec2,
    pub size_start: i32,
    pub size_end: i32,
    pub color_start: Color,
    pub color_end: Color,
    pub x: i32,
    pub y: i32,
    /// The sheet whose sprite the particle shows; a plain square where
    /// there is none.
    pub texture: Option<Atlas>,
    pub active: bool,
}

/// The kinds of particle.
#[derive(Clone, Copy, Debug, PartialEq, Eq, Structural)]
pub enum ParticleType {
    /// Trails a bullet of the player.
    ShotParticle,
    /// Trails a bullet of an enemy.
    EnemyShotParticle,
    /// Marks the way of a dash.
    PlayerDashParticle,
    /// Drifts behind the title.
    IntroParticle,
}

/// What chance adds to a new particle: four amounts, each from nothing up to
/// half a unit.
#[derive(Clone, Copy, Debug, PartialEq, Eq, Structural)]
pub struct Jitter {
    pub size_start: i32,
    pub size_end: i32,
    pub x: i32,
    pub y: i32,
}

impl Jitter {
    pub open spec fn wf(self) -> bool {
        &&& 0 <= self.size_start < 500
        &&& 0 <= self.size_end < 500
        &&& 0 <= self.x < 500
        &&& 0 <= self.y < 500
    }
}

/// The colour that every particle fades to.
pub open spec fn ash() -> Color {
    Color { r: 200, g: 200, b: 200, a: 100 }
}

/// The particle of kind `kind` that appears at `(x, y)` at `now` with the
/// jitter `j`.
pub open spec fn shaped(kind: ParticleType, x: i32, y: i32, now: u64, j: Jitter) -> Particle {
    match kind {
        ParticleType::ShotParticle => Particle {
            lifetime: Timer { duration: 500, start_time: now },
            velocity_start: Vec2 { x: 5000, y: 0 },
            velocity_end: Vec2 { x: 5000, y: 0 },
            size_start: clamp_i32(1500 + j.size_start) as i32,
            size_end: clamp_i32(200 + j.size_end) as i32,
            color_start: Color { r: 984, g: 725, b: 329, a: 1000 },
            color_end: ash(),
            x: clamp_i32(x + 2 * j.x) as i32,
            y: clamp_i32(y + 2 * j.y) as i32,
            texture: None,
            active: true,
        },
        ParticleType::EnemyShotParticle => Particle {
            lifetime: Timer { duration: 500, start_time: now },
            velocity_start: Vec2 { x: 5000, y: 0 },
            velocity_end: Vec2 { x: 5000, y: 0 },
            size_start: clamp_i32(1500 + j.size_start) as i32,
            size_end: clamp_i32(200 + j.size_end) as i32,
            color_start: Color { r: 658, g: 517, b: 952, a: 1000 },
            color_end: ash(),
            x: clamp_i32(x + 2 * j.x) as i32,
            y: clamp_i32(y + 2 * j.y) as i32,
            texture: None,
            active: true,
        },
        ParticleType::PlayerDashParticle => Particle {
            lifetime: Timer { duration: 500, start_time: now },
            velocity_start: Vec2 { x: 1000, y: 0 },
            velocity_end: Vec2 { x: 1000, y: 0 },
            size_start: clamp_i32(1500 + j.size_start) as i32,
            size_end: clamp_i32(200 + j.size_end) as i32,
            color_start: Color { r: 1000, g: 1000, b: 1000, a: 300 },
            color_end: ash(),
            x: clamp_i32(x + trunc_div(j.x as int, 10)) as i32,
            y: clamp_i32(y + trunc_div(j.y as int, 2)) as i32,
            texture: Some(Atlas::Player),
            active: true,
        },
        ParticleType::IntroParticle => Particle {
            lifetime: Timer { duration: 10000, start_time: now },
            velocity_start: Vec2 { x: 1000, y: 5000 },
            velocity_end: Vec2 { x: 1000, y: 5000 },
            size_start: clamp_i32(1500 + 3 * j.size_start) as i32,
            size_end: clamp_i32(200 + 3 * j.size_end) as i32,
            color_start: Color { r: 1000, g: 1000, b: 1000, a: 500 },
            color_end: ash(),
            x: clamp_i32(x + 500 * j.x) as i32,
            y: clamp_i32(y + 2500 * j.y) as i32,
            texture: None,
            active: true,
        },
    }
}

/// The point between `a` and `b` at the share `t` of the way, which is in
/// thousandths.
pub open spec fn lerp_vec2_spec(a: Vec2, b: Vec2, t: int) -> Vec2 {
    Vec2 {
        x: clamp_i32(lerp_spec(a.x as int, b.x as int, t)) as i32,
        y: clamp_i32(lerp_spec(a.y as int, b.y as int, t)) as i32,
    }
}

pub fn lerp_vec2(a: Vec2, b: Vec2, t: i32) -> (v: Vec2)
    ensures
        v == lerp_vec2_spec(a, b, t as int),
{
    Vec2 { x: saturate(lerp(a.x, b.x, t) as i128), y: saturate(lerp(a.y, b.y, t) as i128) }
}

/// How far a speed of `v` thousandths of a pixel a second carries in `delta`
/// milliseconds.
pub open spec fn travel(v: int, delta: int) -> int {
    trunc_div(v * delta, 1000)
}

pub fn travelled(v: i32, delta: u32) -> (d: i64)
    ensures
        d == travel(v as int, delta as int),
{
    proof {
        lemma_mul_bound(v as int, delta as int, 2147483648, 4294967295);
    }
    let n: i64 = (v as i64) * (delta as i64);
    if n >= 0 {
        n / 1000
    } else {
        -((-n) / 1000)
    }
}

impl Particle {
    /// Every colour of the particle is a proper colour.
    pub open spec fn wf(self) -> bool {
        self.color_start.in_gamut() && self.color_end.in_gamut()
    }

    /// The particle of kind `kind` at `(x, y)` with the jitter `j`.
    pub fn new(kind: ParticleType, x: i32, y: i32, now: u64, j: Jitter) -> (p: Particle)
        ensures
            p == shaped(kind, x, y, now, j),
            p.wf(),
            p.active,
    {
        let fade = Color { r: 200, g: 200, b: 200, a: 100 };
        let jx: i128 = j.x as i128;
        let jy: i128 = j.y as i128;
        match kind {
            ParticleType::ShotParticle => Particle {
                lifetime: Timer::new(500, now),
                velocity_start: Vec2 { x: 5000, y: 0 },
                velocity_end: Vec2 { x: 5000, y: 0 },
                size_start: saturate(1500 + j.size_start as i128),
                size_end: saturate(200 + j.size_end as i128),
                color_start: Color { r: 984, g: 725, b: 329, a: 1000 },
                color_end: fade,
                x: saturate(x as i128 + 2 * jx),
                y: saturate(y as i128 + 2 * jy),
                texture: None,
                active: true,
            },
            ParticleType::EnemyShotParticle => Particle {
                lifetime: Timer::new(500, now),
                velocity_start: Vec2 { x: 5000, y: 0 },
                velocity_end: Vec2 { x: 5000, y: 0 },
                size_start: saturate(1500 + j.size_start as i128),
                size_end: saturate(200 + j.size_end as i128),
                color_start: Color { r: 658, g: 517, b: 952, a: 1000 },
                color_end: fade,
                x: saturate(x as i128 + 2 * jx),
                y: saturate(y as i128 + 2 * jy),
                texture: None,
                active: true,
            },
            ParticleType::PlayerDashParticle => {
                let tenth: i128 = if jx >= 0 {
                    jx / 10
                } else {
                    -((-jx) / 10)
                };
                let half: i128 = if jy >= 0 {
                    jy / 2
                } else {
                    -((-jy) / 2)
                };
                Particle {
                    lifetime: Timer::new(500, now),
                    velocity_start: Vec2 { x: 1000, y: 0 },
                    velocity_end: Vec2 { x: 1000, y: 0 },
                    size_start: saturate(1500 + j.size_start as i128),
                    size_end: saturate(200 + j.size_end as i128),
                    color_start: Color { r: 1000, g: 1000, b: 1000, a: 300 },
                    color_end: fade,
                    x: saturate(x as i128 + tenth),
                    y: saturate(y as i128 + half),
                    texture: Some(Atlas::Player),
                    active: true,
                }
            },
            ParticleType::IntroParticle => Particle {
                lifetime: Timer::new(10000, now),
                velocity_start: Vec2 { x: 1000, y: 5000 },
                velocity_end: Vec2 { x: 1000, y: 5000 },
                size_start: saturate(1500 + 3 * (j.size_start as i128)),
                size_end: saturate(200 + 3 * (j.size_end as i128)),
                color_start: Color { r: 1000, g: 1000, b: 1000, a: 500 },
                color_end: fade,
                x: saturate(x as i128 + 500 * jx),
                y: saturate(y as i128 + 2500 * jy),
                texture: None,
                active: true,
            },
        }
    }

    /// The particle after `delta` milliseconds of a frame that ends at
    /// `now`: a live one goes out where its lifetime is over, and moves on
    /// with the velocity that belongs to its age.
    pub open spec fn updated(self, delta: u32, now: u64) -> Particle {
        if self.active {
            let v = lerp_vec2_spec(self.velocity_start, self.velocity_end, self.lifetime.value_at(now));
            Particle {
                active: !self.lifetime.finished_at(now),
                x: clamp_i32(self.x + travel(v.x as int, delta as int)) as i32,
                y: clamp_i32(self.y + travel(v.y as int, delta as int)) as i32,
                ..self
            }
        } else {
            self
        }
    }

    pub fn update(&mut self, delta: u32, now: u64)
        ensures
            *final(self) == old(self).updated(delta, now),
    {
        if self.active {
            if self.lifetime.finished(now) {
                self.active = false;
            }
            let t: i32 = self.lifetime.value(now) as i32;
            let v: Vec2 = lerp_vec2(self.velocity_start, self.velocity_end, t);
            self.x = saturate(self.x as i128 + travelled(v.x, delta) as i128);
            self.y = saturate(self.y as i128 + travelled(v.y, delta) as i128);
        }
    }

    /// The command that paints the particle at `now`: its sprite, or a
    /// square of the size that belongs to its age, in the colour that
    /// belongs to its age.
    pub open spec fn drawn(self, now: u64) -> DrawCommand {
        let t = self.lifetime.value_at(now);
        let tint = lerp_color_spec(self.color_start, self.color_end, t);
        match self.texture {
            Some(atlas) => DrawCommand {
                kind: DrawKind::Sprite {
                    atlas,
                    source: Some(Rect { x: 1000, y: 1000, w: 9000, h: 9000 }),
                },
                x: self.x,
                y: self.y,
                w: 8000,
                h: 8000,
                flip_x: false,
                tint,
            },
            None => DrawCommand {
                kind: DrawKind::Rectangle,
                x: self.x,
                y: self.y,
                w: lerp_spec(self.size_start as int, self.size_end as int, t) as i32,
                h: lerp_spec(self.size_start as int, self.size_end as int, t) as i32,
                flip_x: false,
                tint,
            },
        }
    }

    pub fn draw(&self, now: u64) -> (c: DrawCommand)
        requires
            self.wf(),
        ensures
            c == self.drawn(now),
    {
        let t: i32 = self.lifetime.value(now) as i32;
        let tint: Color = lerp_color(self.color_start, self.color_end, t);
        match self.texture {
            Some(atlas) => DrawCommand {
                kind: DrawKind::Sprite { atlas, source: Some(Rect::new(1000, 1000, 9000, 9000)) },
                x: self.x,
                y: self.y,
                w: 8000,
                h: 8000,
                flip_x: false,
                tint,
            },
            None => {
                proof {
                    lemma_lerp_bounds(
                        self.size_start as int,
                        self.size_end as int,
                        t as int,
                        i32::MIN as int,
                        i32::MAX as int,
                    );
                }
                let size: i32 = lerp(self.size_start, self.size_end, t) as i32;
                DrawCommand {
                    kind: DrawKind::Rectangle,
                    x: self.x,
                    y: self.y,
                    w: size,
                    h: size,
                    flip_x: false,
                    tint,
                }
            },
        }
    }
}

impl Pooled for Particle {
    open spec fn live_spec(&self) -> bool {
        self.active
    }

    fn live(&self) -> (b: bool) {
        self.active
    }
}

fn jitter_draw() -> (j: i32)
    ensures
        0 <= j < 500,
{
    random_in_range(500, 1000) - 500
}

/// Adds a particle of the given kind at `(x, y)`, jittered by chance.
pub fn spawn_particle(particles: &mut Vec<Particle>, x: i32, y: i32, particle_type: ParticleType, now: u64)
    ensures
        exists|j: Jitter| #[trigger]
            j.wf() && final(particles)@ == old(particles)@.push(shaped(particle_type, x, y, now, j)),
        final(particles)@.len() == old(particles)@.len() + 1,
        final(particles)@.take(old(particles)@.len() as int) == old(particles)@,
{
    let mut size_start: i32 = jitter_draw();
    let mut size_end: i32 = jitter_draw();
    match particle_type {
        ParticleType::IntroParticle => {
            size_start = jitter_draw();
            size_end = jitter_draw();
        },
        _ => {},
    }
    let jx: i32 = jitter_draw();
    let jy: i32 = jitter_draw();
    let j = Jitter { size_start, size_end, x: jx, y: jy };
    let p = Particle::new(particle_type, x, y, now, j);
    particles.push(p);
    proof {
        assert(j.wf());
        assert(particles@.take(old(particles)@.len() as int) =~= old(particles)@);
    }
}

/// Every particle of the pool after a frame.
pub fn update_particles(particles: &mut Vec<Particle>, delta: u32, now: u64)
    ensures
        final(particles)@.len() == old(particles)@.len(),
        forall|i: int|
            0 <= i < old(particles)@.len() ==> #[trigger] final(particles)@[i] == old(particles)@[i].updated(delta, now),
{
    let n: usize = particles.len();
    let mut i: usize = 0;
    while i < n
        invariant
            i <= n,
            n == particles@.len(),
            n == old(particles)@.len(),
            forall|k: int| 0 <= k < i ==> #[trigger] particles@[k] == old(particles)@[k].updated(delta, now),
            forall|k: int| i <= k < n ==> #[trigger] particles@[k] == old(particles)@[k],
        decreases n - i,
    {
        particles[i].update(delta, now);
        i += 1;
    }
}

/// The commands for the live particles of `s`, in their order.
pub open spec fn painted(s: Seq<Particle>, now: u64) -> Seq<DrawCommand> {
    s.filter_map(
        |p: Particle|
            if p.active {
                Some(p.drawn(now))
            } else {
                None
            },
    )
}

/// What there is to paint of the pool at `now`.
pub fn draw_particles(particles: &Vec<Particle>, now: u64) -> (commands: Vec<DrawCommand>)
    requires
        forall|i: int| 0 <= i < particles@.len() ==> (#[trigger] particles@[i]).wf(),
    ensures
        commands@ == painted(particles@, now),
{
    let ghost f = |p: Particle|
        if p.active {
            Some(p.drawn(now))
        } else {
            None
        };
    let mut commands: Vec<DrawCommand> = Vec::new();
    let n: usize = particles.len();
    let mut i: usize = 0;
    assert(particles@.take(0).filter_map(f) =~= Seq::<DrawCommand>::empty());
    while i < n
        invariant
            i <= n,
            n == particles@.len(),
            f == |p: Particle|
                if p.active {
                    Some(p.drawn(now))
                } else {
                    None
                },
            forall|k: int| 0 <= k < particles@.len() ==> (#[trigger] particles@[k]).wf(),
            commands@ == particles@.take(i as int).filter_map(f),
        decreases n - i,
    {
        proof {
            particles@.lemma_filter_map_take_succ(f, i as int);
        }
        if particles[i].active {
            commands.push(particles[i].draw(now));
        }
        i += 1;
    }
    assert(particles@.take(n as int) =~= particles@);
    commands
}

} // verus!
