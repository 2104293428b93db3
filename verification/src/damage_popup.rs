//! The number that rises over whoever was hit, and fades.

use vstd::prelude::*;
use crate::fixed::{clamp_i32, saturate, trunc_div};
use crate::render::{Color, DrawCommand, DrawKind};
use crate::spatial::Position;
use crate::tween::{Easing, Keyframe, Tween};

verus! {

pub struct DamagePopup {
    pub pos: Position,
    /// The rise, in thousandths of a pixel.
    pub tween: Tween,
    /// The opacity, in thousandths.
    pub opacity_tween: Tween,
    pub amount: i32,
    pub active: bool,
}

/// The rise of a popup: five pixels within the first fifth of its five
/// seconds.
pub open spec fn rise_keys() -> Seq<Keyframe> {
    seq![
        Keyframe { value: 0, time: 0, function: Easing::EaseOut },
        Keyframe { value: 5000, time: 200, function: Easing::EaseInOut },
    ]
}

/// The fading of a popup: from full to nothing over one second.
pub open spec fn fade_keys() -> Seq<Keyframe> {
    seq![
        Keyframe { value: 1000, time: 0, function: Easing::EaseOut },
        Keyframe { value: 0, time: 1000, function: Easing::EaseOut },
    ]
}

impl DamagePopup {
    /// The popup is as it appears at `(x, y)` for a loss of `amount`.
    pub open spec fn fresh(&self, x: i32, y: i32, amount: i32) -> bool {
        &&& self.pos == (Position { x, y })
        &&& self.amount == amount
        &&& self.active
        &&& self.tween.keyframes@ == rise_keys()
        &&& self.tween.duration == 5000
        &&& self.tween.elapsed == 0
        &&& !self.tween.repeating
        &&& self.opacity_tween.keyframes@ == fade_keys()
        &&& self.opacity_tween.duration == 1000
        &&& self.opacity_tween.elapsed == 0
        &&& !self.opacity_tween.repeating
    }

    /// A popup at `(x, y)` that shows a loss of `amount`.
    pub fn new(x: i32, y: i32, amount: i32) -> (p: DamagePopup)
        ensures
            p.fresh(x, y, amount),
    {
        let mut fade: Vec<Keyframe> = Vec::new();
        fade.push(Keyframe::new(1000, 0, Easing::EaseOut));
        fade.push(Keyframe::new(0, 1000, Easing::EaseOut));
        assert(fade@ =~= fade_keys());
        let opacity_tween = Tween::from_keyframes(fade, 0, 1, false);
        let mut rise: Vec<Keyframe> = Vec::new();
        rise.push(Keyframe::new(0, 0, Easing::EaseOut));
        rise.push(Keyframe::new(5000, 200, Easing::EaseInOut));
        assert(rise@ =~= rise_keys());
        let tween = Tween::from_keyframes(rise, 0, 5, false);
        DamagePopup { pos: Position { x, y }, tween, opacity_tween, active: true, amount }
    }

    /// The popup after `delta` more milliseconds: it goes out when its rise
    /// is over.
    pub open spec fn updated(self, delta: u64) -> DamagePopup {
        DamagePopup {
            tween: self.tween.advanced(delta),
            opacity_tween: self.opacity_tween.advanced(delta),
            active: self.active && !self.tween.advanced(delta).finished_spec(),
            ..self
        }
    }

    /// Lets `delta` milliseconds go by.
    pub fn update(&mut self, delta: u64)
        ensures
            *final(self) == old(self).updated(delta),
    {
        self.tween.update(delta);
        self.opacity_tween.update(delta);
        if self.tween.finished() {
            self.active = false;
        }
    }

    /// The command that paints the popup: the loss in yellow, two pixels
    /// to the left of its place, as high above it as it has risen, and half
    /// as opaque as its fading says.
    pub open spec fn drawn(&self) -> DrawCommand {
        DrawCommand {
            kind: DrawKind::Loss { amount: self.amount },
            x: clamp_i32(self.pos.x - 2000) as i32,
            y: clamp_i32(self.pos.y - self.tween.value_spec()) as i32,
            w: 0,
            h: 4000,
            flip_x: false,
            tint: Color {
                r: 1000,
                g: 1000,
                b: 0,
                a: clamp_i32(trunc_div(500 * self.opacity_tween.value_spec(), 1000)) as i32,
            },
        }
    }

    /// What there is to paint of the popup: nothing once it has gone out.
    pub fn draw(&self) -> (c: Option<DrawCommand>)
        ensures
            c == if self.active {
                Some(self.drawn())
            } else {
                None
            },
    {
        if self.active {
            let rise: i32 = self.tween.value();
            let opacity: i64 = self.opacity_tween.value() as i64;
            let half: i64 = 500 * opacity;
            let alpha: i64 = if half >= 0 {
                half / 1000
            } else {
                -((-half) / 1000)
            };
            Some(
                DrawCommand {
                    kind: DrawKind::Loss { amount: self.amount },
                    x: saturate(self.pos.x as i128 - 2000),
                    y: saturate(self.pos.y as i128 - rise as i128),
                    w: 0,
                    h: 4000,
                    flip_x: false,
                    tint: Color { r: 1000, g: 1000, b: 0, a: saturate(alpha as i128) },
                },
            )
        } else {
            None
        }
    }
}

impl crate::pool::Pooled for DamagePopup {
    open spec fn live_spec(&self) -> bool {
        self.active
    }

    fn live(&self) -> (b: bool) {
        self.active
    }
}

/// A loss that is to be shown: where, and how much.
pub struct Mark {
    pub x: i32,
    pub y: i32,
    pub amount: i32,
}

/// `after` is `before` with one fresh popup for each of `marks` behind it,
/// in their order.
pub open spec fn popped(before: Seq<DamagePopup>, after: Seq<DamagePopup>, marks: Seq<Mark>) -> bool {
    &&& after.len() == before.len() + marks.len()
    &&& after.take(before.len() as int) == before
    &&& forall|k: int|
        0 <= k < marks.len() ==> (#[trigger] after[before.len() + k]).fresh(
            marks[k].x,
            marks[k].y,
            marks[k].amount,
        )
}

/// Adding a popup for one more mark keeps `popped`.
pub proof fn lemma_popped_push(
    before: Seq<DamagePopup>,
    after: Seq<DamagePopup>,
    marks: Seq<Mark>,
    p: DamagePopup,
    m: Mark,
)
    requires
        popped(before, after, marks),
        p.fresh(m.x, m.y, m.amount),
    ensures
        popped(before, after.push(p), marks.push(m)),
{
    let after2 = after.push(p);
    let marks2 = marks.push(m);
    assert(after2.take(before.len() as int) =~= after.take(before.len() as int));
    assert forall|k: int| 0 <= k < marks2.len() implies (#[trigger] after2[before.len() + k]).fresh(
        marks2[k].x,
        marks2[k].y,
        marks2[k].amount,
    ) by {
        if k < marks.len() {
            assert(after2[before.len() + k] == after[before.len() + k]);
        }
    }
}

/// Every popup of the pool after `delta` more milliseconds.
pub fn update_popups(popups: &mut Vec<DamagePopup>, delta: u64)
    ensures
        final(popups)@.len() == old(popups)@.len(),
        forall|i: int|
            0 <= i < old(popups)@.len() ==> #[trigger] final(popups)@[i] == old(popups)@[i].updated(
                delta,
            ),
{
    let n: usize = popups.len();
    let mut i: usize = 0;
    while i < n
        invariant
            i <= n,
            n == popups@.len(),
            n == old(popups)@.len(),
            forall|k: int| 0 <= k < i ==> #[trigger] popups@[k] == old(popups)@[k].updated(delta),
            forall|k: int| i <= k < n ==> #[trigger] popups@[k] == old(popups)@[k],
        decreases n - i,
    {
        popups[i].update(delta);
        i += 1;
    }
}

/// What there is to paint of the pool: the popups that have not gone out.
pub fn draw_popups(popups: &Vec<DamagePopup>) -> (commands: Vec<DrawCommand>)
    ensures
        commands@ == popups@.filter_map(
            |p: DamagePopup|
                if p.active {
                    Some(p.drawn())
                } else {
                    None
                },
        ),
{
    let ghost f = |p: DamagePopup|
        if p.active {
            Some(p.drawn())
        } else {
            None
        };
    let mut commands: Vec<DrawCommand> = Vec::new();
    let n: usize = popups.len();
    let mut i: usize = 0;
    assert(popups@.take(0).filter_map(f) =~= Seq::<DrawCommand>::empty());
    while i < n
        invariant
            i <= n,
            n == popups@.len(),
            f == |p: DamagePopup|
                if p.active {
                    Some(p.drawn())
                } else {
                    None
                },
            commands@ == popups@.take(i as int).filter_map(f),
        decreases n - i,
    {
        proof {
            popups@.lemma_filter_map_take_succ(f, i as int);
        }
        match popups[i].draw() {
            Some(c) => {
                commands.push(c);
            },
            None => {},
        }
        i += 1;
    }
    assert(popups@.take(n as int) =~= popups@);
    commands
}

} // verus!
