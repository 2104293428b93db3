//! What is left of an enemy that was killed: it drifts away from the player
//! and fades.

use vstd::prelude::*;
use crate::animation::Rect;
use crate::fixed::{clamp_i32, saturate};
use crate::particles::{travel, travelled};
use crate::pool::Pooled;
use crate::render::{Atlas, Color, DrawCommand, DrawKind};
use crate::spatial::Position;
use crate::tween::{Easing, Keyframe, Tween};

verus! {

pub struct DeadEnemy {
    pub position: Position,
    /// The speed of the drift, in thousandths of a pixel a second.
    pub move_tween: Tween,
    /// The opacity, in thousandths.
    pub opacity_tween: Tween,
    pub active: bool,
    /// The frame that the enemy showed when it was killed.
    pub curr_frame: Option<Rect>,
}

/// The drift of a remnant: up to twenty pixels a second within the first
/// fifth of its one second.
pub open spec fn drift_keys() -> Seq<Keyframe> {
    seq![
        Keyframe { value: 0, time: 0, function: Easing::EaseOut },
        Keyframe { value: 20000, time: 200, function: Easing::EaseOut },
    ]
}

/// The fading of a remnant: from full to nothing over a second and a half.
pub open spec fn fading_keys() -> Seq<Keyframe> {
    seq![
        Keyframe { value: 1000, time: 0, function: Easing::EaseOut },
        Keyframe { value: 0, time: 1000, function: Easing::EaseOut },
    ]
}

impl DeadEnemy {
    /// The remnant is as it appears at `(x, y)` with the frame `frame`.
    pub open spec fn fresh(&self, x: i32, y: i32, frame: Option<Rect>) -> bool {
        &&& self.position == (Position { x, y })
        &&& self.active
        &&& self.curr_frame == frame
        &&& self.move_tween.keyframes@ == drift_keys()
        &&& self.move_tween.duration == 1000
        &&& self.move_tween.elapsed == 0
        &&& !self.move_tween.repeating
        &&& self.opacity_tween.keyframes@ == fading_keys()
        &&& self.opacity_tween.duration == 1500
        &&& self.opacity_tween.elapsed == 0
        &&& !self.opacity_tween.repeating
    }

    pub fn new(x: i32, y: i32, frame: Option<Rect>) -> (d: DeadEnemy)
        ensures
            d.fresh(x, y, frame),
    {
        let mut drift: Vec<Keyframe> = Vec::new();
        drift.push(Keyframe::new(0, 0, Easing::EaseOut));
        drift.push(Keyframe::new(20000, 200, Easing::EaseOut));
        assert(drift@ =~= drift_keys());
        let move_tween = Tween::from_keyframes(drift, 0, 1, false);
        let mut fading: Vec<Keyframe> = Vec::new();
        fading.push(Keyframe::new(1000, 0, Easing::EaseOut));
        fading.push(Keyframe::new(0, 1000, Easing::EaseOut));
        assert(fading@ =~= fading_keys());
        let opacity_tween = Tween::over_millis(fading, 1500, false);
        DeadEnemy { position: Position { x, y }, move_tween, opacity_tween, active: true, curr_frame: frame }
    }

    /// The remnant after `delta` milliseconds, for a player at the
    /// horizontal place `x`: it drifts on, to the right where it lies to
    /// the right of the player and to the left otherwise, and goes out
    /// when its drift is over.
    pub open spec fn updated(self, x: i32, delta: u32) -> DeadEnemy {
        let drift = travel(self.move_tween.advanced(delta as u64).value_spec(), delta as int);
        DeadEnemy {
            move_tween: self.move_tween.advanced(delta as u64),
            opacity_tween: self.opacity_tween.advanced(delta as u64),
            position: Position {
                x: if self.position.x > x {
                    clamp_i32(self.position.x + drift) as i32
                } else {
                    clamp_i32(self.position.x - drift) as i32
                },
                y: self.position.y,
            },
            active: self.active && !self.move_tween.advanced(delta as u64).finished_spec(),
            ..self
        }
    }

    /// The command that paints the remnant for a player at the horizontal
    /// place `x`.
    pub open spec fn drawn(&self, x: i32) -> DrawCommand {
        DrawCommand {
            kind: DrawKind::Sprite { atlas: Atlas::Enemies, source: self.curr_frame },
            x: self.position.x,
            y: self.position.y,
            w: 8000,
            h: 8000,
            flip_x: self.position.x > x,
            tint: Color { r: 1000, g: 1000, b: 1000, a: self.opacity_tween.value_spec() as i32 },
        }
    }
}

impl Pooled for DeadEnemy {
    open spec fn live_spec(&self) -> bool {
        self.active
    }

    fn live(&self) -> (b: bool) {
        self.active
    }
}

/// Every remnant of the pool after `delta` milliseconds.
pub fn update_dead_enemies(enemies: &mut Vec<DeadEnemy>, x: &i32, delta: u32)
    ensures
        final(enemies)@.len() == old(enemies)@.len(),
        forall|i: int|
            0 <= i < old(enemies)@.len() ==> #[trigger] final(enemies)@[i] == old(
                enemies
            )@[i].updated(*x, delta),
{
    let n: usize = enemies.len();
    let mut i: usize = 0;
    while i < n
        invariant
            i <= n,
            n == enemies@.len(),
            n == old(enemies)@.len(),
            forall|k: int|
                0 <= k < i ==> #[trigger] enemies@[k] == old(enemies)@[k].updated(*x, delta),
            forall|k: int| i <= k < n ==> #[trigger] enemies@[k] == old(enemies)@[k],
        decreases n - i,
    {
        enemies[i].move_tween.update(delta as u64);
        enemies[i].opacity_tween.update(delta as u64);
        let speed: i32 = enemies[i].move_tween.value();
        let drift: i64 = travelled(speed, delta);
        if enemies[i].position.x > *x {
            enemies[i].position.x = saturate(enemies[i].position.x as i128 + drift as i128);
        } else {
            enemies[i].position.x = saturate(enemies[i].position.x as i128 - drift as i128);
        }
        if enemies[i].move_tween.finished() {
            enemies[i].active = false;
        }
        i += 1;
    }
}

/// What there is to paint of the pool for a player at the horizontal place
/// `x`: the remnants that have not gone out.
pub fn draw_dead_enemies(enemies: &Vec<DeadEnemy>, x: &i32) -> (commands: Vec<DrawCommand>)
    ensures
        commands@ == enemies@.filter_map(
            |d: DeadEnemy|
                if d.active {
                    Some(d.drawn(*x))
                } else {
                    None
                },
        ),
{
    let ghost f = |d: DeadEnemy|
        if d.active {
            Some(d.drawn(*x))
        } else {
            None
        };
    let mut commands: Vec<DrawCommand> = Vec::new();
    let n: usize = enemies.len();
    let mut i: usize = 0;
    assert(enemies@.take(0).filter_map(f) =~= Seq::<DrawCommand>::empty());
    while i < n
        invariant
            i <= n,
            n == enemies@.len(),
            f == |d: DeadEnemy|
                if d.active {
                    Some(d.drawn(*x))
                } else {
                    None
                },
            commands@ == enemies@.take(i as int).filter_map(f),
        decreases n - i,
    {
        proof {
            enemies@.lemma_filter_map_take_succ(f, i as int);
        }
        if enemies[i].active {
            let e = &enemies[i];
            commands.push(
                DrawCommand {
                    kind: DrawKind::Sprite { atlas: Atlas::Enemies, source: e.curr_frame },
                    x: e.position.x,
                    y: e.position.y,
                    w: 8000,
                    h: 8000,
                    flip_x: e.position.x > *x,
                    tint: Color { r: 1000, g: 1000, b: 1000, a: e.opacity_tween.value() },
                },
            );
        }
        i += 1;
    }
    assert(enemies@.take(n as int) =~= enemies@);
    commands
}

} // verus!
