//! What the simulation hands to whoever paints it: one command per visible
//! thing, in world coordinates.

use vstd::prelude::*;
use crate::animation::Rect;
use crate::fixed::{lemma_mul_bound, trunc_div};

verus! {

/// The sprite sheets, by name only.
#[derive(Clone, Copy, Debug, PartialEq, Eq, Structural)]
pub enum Atlas {
    Main,
    Ui,
    Upgrades,
    Player,
    Enemies,
    Title,
}

/// A colour with its opacity, each channel in thousandths.
#[derive(Clone, Copy, Debug, PartialEq, Eq, Structural)]
pub struct Color {
    pub r: i32,
    pub g: i32,
    pub b: i32,
    pub a: i32,
}

/// What a command paints.
#[derive(Clone, Copy, Debug, PartialEq, Eq, Structural)]
pub enum DrawKind {
    /// A region of a sprite sheet, or the whole sheet where none is given.
    Sprite { atlas: Atlas, source: Option<Rect> },
    /// A filled rectangle.
    Rectangle,
    /// A filled circle; the place of the command is its middle, and width
    /// and height both hold its radius.
    Circle,
    /// A loss of that many points, written as a number behind a minus sign.
    Loss { amount: i32 },
}

/// One thing to paint: what, where, how large, mirrored or not, and tinted
/// with which colour. Lengths are in thousandths of a pixel.
#[derive(Clone, Copy, Debug, PartialEq, Eq, Structural)]
pub struct DrawCommand {
    pub kind: DrawKind,
    pub x: i32,
    pub y: i32,
    pub w: i32,
    pub h: i32,
    pub flip_x: bool,
    pub tint: Color,
}

/// The command that paints the map cell in column `x` and row `y`; a cell
/// is eight pixels wide and high.
pub open spec fn map_cell(x: i32, y: i32) -> DrawCommand {
    DrawCommand {
        kind: DrawKind::Sprite {
            atlas: Atlas::Main,
            source: Some(Rect { x: 32000, y: 2000, w: 7000, h: 7000 }),
        },
        x: crate::fixed::clamp_i32(x * 8000) as i32,
        y: crate::fixed::clamp_i32(y * 8000) as i32,
        w: 8000,
        h: 8000,
        flip_x: false,
        tint: Color { r: 1000, g: 1000, b: 1000, a: 1000 },
    }
}

pub fn draw_map_cell(x: i32, y: i32) -> (c: DrawCommand)
    ensures
        c == map_cell(x, y),
{
    DrawCommand {
        kind: DrawKind::Sprite {
            atlas: Atlas::Main,
            source: Some(Rect { x: 32000, y: 2000, w: 7000, h: 7000 }),
        },
        x: crate::fixed::saturate((x as i128) * 8000),
        y: crate::fixed::saturate((y as i128) * 8000),
        w: 8000,
        h: 8000,
        flip_x: false,
        tint: Color { r: 1000, g: 1000, b: 1000, a: 1000 },
    }
}

/// The region of sprite `ix` on a sheet of five columns: sprites of eight
/// texels lie ten texels apart, two texels in from the edge, and a margin
/// of one texel is left off on each side.
pub open spec fn sprite_region(ix: u32) -> Rect {
    Rect {
        x: ((ix % 5) * 10000 + 3000) as i32,
        y: crate::fixed::clamp_i32((ix / 5) * 10000 + 3000) as i32,
        w: 5800,
        h: 5800,
    }
}

pub fn sprite_rect(ix: u32) -> (r: Rect)
    ensures
        r == sprite_region(ix),
{
    Rect {
        x: ((ix % 5) * 10000 + 3000) as i32,
        y: crate::fixed::saturate(((ix / 5) as i128) * 10000 + 3000),
        w: 5800,
        h: 5800,
    }
}

/// A channel given in 255ths, as thousandths.
pub open spec fn channel(c: u8) -> int {
    c * 1000 / 255
}

/// `a` moved toward `b` by the share `t`, which is in thousandths; the
/// result is rounded toward zero.
pub open spec fn lerp_spec(a: int, b: int, t: int) -> int {
    trunc_div(a * (1000 - t) + b * t, 1000)
}

/// The colour between `a` and `b` at the share `t`.
pub open spec fn lerp_color_spec(a: Color, b: Color, t: int) -> Color {
    Color {
        r: lerp_spec(a.r as int, b.r as int, t) as i32,
        g: lerp_spec(a.g as int, b.g as int, t) as i32,
        b: lerp_spec(a.b as int, b.b as int, t) as i32,
        a: lerp_spec(a.a as int, b.a as int, t) as i32,
    }
}

impl Color {
    pub fn new(r: i32, g: i32, b: i32, a: i32) -> (c: Color)
        ensures
            c == (Color { r, g, b, a }),
    {
        Color { r, g, b, a }
    }

    /// A colour from channels in 255ths.
    pub fn from_rgba(r: u8, g: u8, b: u8, a: u8) -> (c: Color)
        ensures
            c.r == channel(r),
            c.g == channel(g),
            c.b == channel(b),
            c.a == channel(a),
    {
        Color {
            r: (r as i32) * 1000 / 255,
            g: (g as i32) * 1000 / 255,
            b: (b as i32) * 1000 / 255,
            a: (a as i32) * 1000 / 255,
        }
    }

    pub fn white() -> (c: Color)
        ensures
            c == (Color { r: 1000, g: 1000, b: 1000, a: 1000 }),
    {
        Color { r: 1000, g: 1000, b: 1000, a: 1000 }
    }

    pub fn pink() -> (c: Color)
        ensures
            c == (Color { r: 1000, g: 430, b: 760, a: 1000 }),
    {
        Color { r: 1000, g: 430, b: 760, a: 1000 }
    }

    pub fn red() -> (c: Color)
        ensures
            c == (Color { r: 1000, g: 0, b: 0, a: 1000 }),
    {
        Color { r: 1000, g: 0, b: 0, a: 1000 }
    }

    /// Every channel lies between nothing and full.
    pub open spec fn in_gamut(self) -> bool {
        0 <= self.r <= 1000 && 0 <= self.g <= 1000 && 0 <= self.b <= 1000 && 0 <= self.a <= 1000
    }

    /// Tells whether every channel lies between nothing and full.
    pub fn is_in_gamut(&self) -> (b: bool)
        ensures
            b == self.in_gamut(),
    {
        0 <= self.r && self.r <= 1000 && 0 <= self.g && self.g <= 1000 && 0 <= self.b && self.b
            <= 1000 && 0 <= self.a && self.a <= 1000
    }
}

/// Linear interpolation from `a` to `b`; `t` is the share of the way in
/// thousandths and need not lie between nothing and the whole.
pub fn lerp(a: i32, b: i32, t: i32) -> (v: i64)
    ensures
        v == lerp_spec(a as int, b as int, t as int),
{
    proof {
        lemma_mul_bound(a as int, 1000 - t, 2147483648, 2147484648);
        lemma_mul_bound(b as int, t as int, 2147483648, 2147483648);
    }
    let sum: i128 = (a as i128) * (1000 - t as i128) + (b as i128) * (t as i128);
    if sum >= 0 {
        (sum / 1000) as i64
    } else {
        -(((-sum) / 1000) as i64)
    }
}

/// Between two values of one range, interpolation stays in that range.
pub proof fn lemma_lerp_bounds(a: int, b: int, t: int, lo: int, hi: int)
    requires
        lo <= a <= hi,
        lo <= b <= hi,
        0 <= t <= 1000,
    ensures
        lo <= lerp_spec(a, b, t) <= hi,
{
    let sum = a * (1000 - t) + b * t;
    assert(lo * 1000 <= sum <= hi * 1000) by (nonlinear_arith)
        requires
            sum == a * (1000 - t) + b * t,
            lo <= a <= hi,
            lo <= b <= hi,
            0 <= t <= 1000,
    ;
    if sum >= 0 {
        assert(lo <= sum / 1000 <= hi) by (nonlinear_arith)
            requires
                lo * 1000 <= sum <= hi * 1000,
                lo <= hi,
                sum >= 0,
        ;
    } else {
        assert(lo <= -((-sum) / 1000) <= hi) by (nonlinear_arith)
            requires
                lo * 1000 <= sum <= hi * 1000,
                lo <= hi,
                sum < 0,
        ;
    }
}

/// The colour between `a` and `b` at the share `t` of the way.
pub fn lerp_color(a: Color, b: Color, t: i32) -> (c: Color)
    requires
        a.in_gamut(),
        b.in_gamut(),
        0 <= t <= 1000,
    ensures
        c == lerp_color_spec(a, b, t as int),
        c.in_gamut(),
{
    proof {
        lemma_lerp_bounds(a.r as int, b.r as int, t as int, 0, 1000);
        lemma_lerp_bounds(a.g as int, b.g as int, t as int, 0, 1000);
        lemma_lerp_bounds(a.b as int, b.b as int, t as int, 0, 1000);
        lemma_lerp_bounds(a.a as int, b.a as int, t as int, 0, 1000);
    }
    Color {
        r: lerp(a.r, b.r, t) as i32,
        g: lerp(a.g, b.g, t) as i32,
        b: lerp(a.b, b.b, t) as i32,
        a: lerp(a.a, b.a, t) as i32,
    }
}

} // verus!
