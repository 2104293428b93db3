//! Positions and the spatial tests built on them: overlap of two circles,
//! a capped distance for ranking, and unit directions.

use vstd::prelude::*;
use crate::fixed::{
    abs, int_sqrt, is_sqrt_of, isqrt, lemma_int_sqrt, lemma_sqrt_exists, lemma_sqrt_monotone,
};

verus! {

/// A point of the world, each coordinate in thousandths of a pixel. The
/// origin is the top-left corner; `y` grows downward.
#[derive(Clone, Copy, Debug, PartialEq, Eq, Structural)]
pub struct Position {
    pub x: i32,
    pub y: i32,
}

/// The box that stands for an actor's body.
#[derive(Clone, Copy, Debug, PartialEq, Eq, Structural)]
pub struct Collider {
    pub x: i32,
    pub y: i32,
    pub width: i32,
    pub height: i32,
    pub radius: i32,
}

/// A direction as the sine and cosine, in thousandths, of the angle that
/// `atan2(dx, dy)` names: the sine goes with the horizontal offset and the
/// cosine with the vertical one.
#[derive(Clone, Copy, Debug, PartialEq, Eq, Structural)]
pub struct Heading {
    pub sin: i32,
    pub cos: i32,
}

/// Squared Euclidean distance between two points.
pub open spec fn dist_sq(a: Position, b: Position) -> int {
    (b.x - a.x) * (b.x - a.x) + (b.y - a.y) * (b.y - a.y)
}

/// Two points lie strictly closer than `r` to one another.
pub open spec fn collides(a: Position, b: Position, r: int) -> bool {
    r > 0 && dist_sq(a, b) < r * r
}

/// Sum of the horizontal and the vertical distance.
pub open spec fn manhattan(a: Position, b: Position) -> int {
    abs(a.x - b.x) + abs(a.y - b.y)
}

/// The Euclidean distance rounded down where the points are nearer than
/// `cap` (and their Manhattan distance is below one and a half caps), else
/// `cap` itself.
pub open spec fn capped_distance(a: Position, b: Position, cap: int) -> int {
    if 2 * manhattan(a, b) < 3 * cap && int_sqrt(dist_sq(a, b)) < cap {
        int_sqrt(dist_sq(a, b))
    } else {
        cap
    }
}

/// One component of the unit vector along `(dx, dy)`, in thousandths, rounded
/// toward zero. `c` is the component asked for, `s` the squared length.
pub open spec fn unit_component(c: int, s: int) -> int {
    if c >= 0 {
        int_sqrt(c * c * 1_000_000 / s)
    } else {
        -int_sqrt(c * c * 1_000_000 / s)
    }
}

/// The unit vector along `(dx, dy)` in thousandths; the zero vector has no
/// direction and is returned as it is.
pub open spec fn normalized(dx: int, dy: int) -> (int, int) {
    let s = dx * dx + dy * dy;
    if s == 0 {
        (0, 0)
    } else {
        (unit_component(dx, s), unit_component(dy, s))
    }
}

/// The heading from `a` to `b`. Two equal points give the angle zero.
pub open spec fn heading(a: Position, b: Position) -> Heading {
    let n = normalized(b.x - a.x, b.y - a.y);
    if a == b {
        Heading { sin: 0, cos: 1000 }
    } else {
        Heading { sin: n.0 as i32, cos: n.1 as i32 }
    }
}

fn abs_diff(p: i32, q: i32) -> (d: i128)
    ensures
        d == abs(p - q),
        0 <= d <= 4294967295,
{
    let v: i128 = p as i128 - q as i128;
    if v < 0 {
        -v
    } else {
        v
    }
}

proof fn lemma_square_bound(v: int, bound: int)
    requires
        0 <= v <= bound,
    ensures
        0 <= v * v <= bound * bound,
{
    assert(0 <= v * v <= bound * bound) by (nonlinear_arith)
        requires
            0 <= v <= bound,
    ;
}

proof fn lemma_square_abs(v: int)
    ensures
        abs(v) * abs(v) == v * v,
{
    assert((-v) * (-v) == v * v) by (nonlinear_arith);
}

proof fn lemma_square_strict(v: int, r: int)
    requires
        0 <= r < v,
    ensures
        r * r < v * v,
{
    assert(r * r < v * v) by (nonlinear_arith)
        requires
            0 <= r < v,
    ;
}

/// Overlap test of two circles of radius `r / 2` round `a` and `b`: an
/// axis-aligned rejection first, then the Euclidean comparison.
pub fn col(a: Position, b: Position, r: i32) -> (hit: bool)
    ensures
        hit == collides(a, b, r as int),
{
    let x: i128 = abs_diff(b.x, a.x);
    let y: i128 = abs_diff(b.y, a.y);
    let rr: i128 = r as i128;
    proof {
        lemma_square_abs(b.x - a.x);
        lemma_square_abs(b.y - a.y);
        lemma_square_bound(x as int, 4294967295);
        lemma_square_bound(y as int, 4294967295);
        assert(0 <= y * y);
        assert(0 <= x * x);
    }
    if x > rr {
        proof {
            if rr >= 0 {
                lemma_square_strict(x as int, rr as int);
            }
        }
        return false;
    }
    if y > rr {
        proof {
            if rr >= 0 {
                lemma_square_strict(y as int, rr as int);
            }
        }
        return false;
    }
    proof {
        lemma_square_bound(rr as int, 2147483647);
    }
    x * x + y * y < rr * rr
}

/// A cheap distance for ranking by nearness: the Euclidean distance, rounded
/// down, where it is below `r`, and `r` otherwise.
pub fn dist(a: Position, b: Position, r: i32) -> (d: i32)
    ensures
        d == capped_distance(a, b, r as int),
{
    let x: i128 = abs_diff(a.x, b.x);
    let y: i128 = abs_diff(a.y, b.y);
    let rr: i128 = r as i128;
    if 2 * (x + y) < 3 * rr {
        proof {
            lemma_square_abs(a.x - b.x);
            lemma_square_abs(a.y - b.y);
            lemma_square_bound(x as int, 4294967295);
            lemma_square_bound(y as int, 4294967295);
            assert((b.x - a.x) * (b.x - a.x) == (a.x - b.x) * (a.x - b.x)) by (nonlinear_arith);
            assert((b.y - a.y) * (b.y - a.y) == (a.y - b.y) * (a.y - b.y)) by (nonlinear_arith);
        }
        let s: i128 = x * x + y * y;
        let root: u64 = isqrt(s as u128);
        if (root as i128) < rr {
            root as i32
        } else {
            r
        }
    } else {
        r
    }
}

/// The capped distance lies between nothing and the cap.
pub proof fn lemma_capped_distance_bounds(a: Position, b: Position, cap: int)
    requires
        0 <= cap,
    ensures
        0 <= capped_distance(a, b, cap) <= cap,
{
    lemma_square_abs(b.x - a.x);
    lemma_square_abs(b.y - a.y);
    lemma_square_bound(abs(b.x - a.x), 4294967295);
    lemma_square_bound(abs(b.y - a.y), 4294967295);
    lemma_sqrt_exists(dist_sq(a, b));
}

/// The distance between two points, rounded down.
pub open spec fn rounded_distance(a: Position, b: Position) -> int {
    int_sqrt(dist_sq(a, b))
}

/// The capped distance is the smaller of the rounded distance and the cap:
/// the look at the Manhattan distance turns no point away that is nearer
/// than the cap.
pub proof fn lemma_capped_distance_is_min(a: Position, b: Position, cap: int)
    requires
        0 <= cap,
    ensures
        capped_distance(a, b, cap) == if rounded_distance(a, b) < cap {
            rounded_distance(a, b)
        } else {
            cap
        },
        is_sqrt_of(rounded_distance(a, b), dist_sq(a, b)),
{
    let dx = abs(a.x - b.x);
    let dy = abs(a.y - b.y);
    let s = dist_sq(a, b);
    lemma_square_abs(a.x - b.x);
    lemma_square_abs(a.y - b.y);
    assert((b.x - a.x) * (b.x - a.x) == (a.x - b.x) * (a.x - b.x)) by (nonlinear_arith);
    assert((b.y - a.y) * (b.y - a.y) == (a.y - b.y) * (a.y - b.y)) by (nonlinear_arith);
    assert(s == dx * dx + dy * dy);
    assert(0 <= dx * dx && 0 <= dy * dy) by (nonlinear_arith);
    lemma_sqrt_exists(s);
    let d = int_sqrt(s);
    if d < cap {
        let m = dx + dy;
        assert(m * m <= 2 * s) by (nonlinear_arith)
            requires
                m == dx + dy,
                s == dx * dx + dy * dy,
        ;
        assert((d + 1) * (d + 1) <= cap * cap) by (nonlinear_arith)
            requires
                0 <= d + 1 <= cap,
        ;
        assert(2 * m < 3 * cap) by (nonlinear_arith)
            requires
                m * m < 2 * (cap * cap),
                0 <= m,
                0 <= cap,
        ;
    }
}

/// The heading from `a` to `b` points to the side that `b` lies on: its
/// sine has the sign of the horizontal offset and its cosine that of the
/// vertical one, each is nothing where its offset is nothing and the points
/// differ, and neither exceeds one.
pub proof fn lemma_heading_signs(a: Position, b: Position)
    ensures
        -1000 <= heading(a, b).sin <= 1000,
        -1000 <= heading(a, b).cos <= 1000,
        b.x > a.x ==> heading(a, b).sin >= 0,
        b.x < a.x ==> heading(a, b).sin <= 0,
        b.x == a.x && a != b ==> heading(a, b).sin == 0,
        b.y > a.y ==> heading(a, b).cos >= 0,
        b.y < a.y ==> heading(a, b).cos <= 0,
        b.y == a.y && a != b ==> heading(a, b).cos == 0,
{
    if a != b {
        let dx = b.x - a.x;
        let dy = b.y - a.y;
        let s = dx * dx + dy * dy;
        assert(0 <= dx * dx && 0 <= dy * dy) by (nonlinear_arith);
        assert(dx != 0 ==> dx * dx > 0) by (nonlinear_arith);
        assert(dy != 0 ==> dy * dy > 0) by (nonlinear_arith);
        assert(dx != 0 || dy != 0);
        lemma_unit_component_bound(dx, s);
        lemma_unit_component_bound(dy, s);
        lemma_sqrt_exists(dx * dx * 1_000_000 / s);
        lemma_sqrt_exists(dy * dy * 1_000_000 / s);
        if dx == 0 {
            assert(dx * dx * 1_000_000 / s == 0);
            lemma_int_sqrt(0, 0);
        }
        if dy == 0 {
            assert(dy * dy * 1_000_000 / s == 0);
            lemma_int_sqrt(0, 0);
        }
    }
}

/// Of two points on one horizontal or vertical line, the rounded distance
/// is the offset between them, and the heading from the one to the other is
/// a full turn of the sine or of the cosine toward the other.
pub proof fn lemma_heading_along_axis(a: Position, b: Position)
    requires
        a != b,
        a.x == b.x || a.y == b.y,
    ensures
        rounded_distance(a, b) == abs(b.x - a.x) + abs(b.y - a.y),
        a.y == b.y && b.x > a.x ==> heading(a, b) == (Heading { sin: 1000, cos: 0 }),
        a.y == b.y && b.x < a.x ==> heading(a, b) == (Heading { sin: -1000i32, cos: 0 }),
        a.x == b.x && b.y > a.y ==> heading(a, b) == (Heading { sin: 0, cos: 1000 }),
        a.x == b.x && b.y < a.y ==> heading(a, b) == (Heading { sin: 0, cos: -1000i32 }),
{
    let dx = b.x - a.x;
    let dy = b.y - a.y;
    let s = dx * dx + dy * dy;
    let d = abs(dx) + abs(dy);
    assert(dx == 0 ==> dx * dx == 0) by (nonlinear_arith);
    assert(dy == 0 ==> dy * dy == 0) by (nonlinear_arith);
    lemma_square_abs(dx);
    lemma_square_abs(dy);
    assert(s == d * d) by (nonlinear_arith)
        requires
            s == abs(dx) * abs(dx) + abs(dy) * abs(dy),
            d == abs(dx) + abs(dy),
            abs(dx) == 0 || abs(dy) == 0,
    ;
    assert(d * d < (d + 1) * (d + 1) && d * d > 0) by (nonlinear_arith)
        requires
            d > 0,
    ;
    lemma_int_sqrt(s, d);
    assert(s * 1_000_000 / s == 1_000_000) by (nonlinear_arith)
        requires
            s > 0,
    ;
    assert(0int * 1_000_000 / s == 0) by (nonlinear_arith)
        requires
            s > 0,
    ;
    assert(is_sqrt_of(1000, 1_000_000));
    lemma_int_sqrt(1_000_000, 1000);
    lemma_int_sqrt(0, 0);
}

proof fn lemma_unit_component_bound(c: int, s: int)
    requires
        0 < s,
        c * c <= s,
    ensures
        0 <= c * c * 1_000_000 / s <= 1_000_000,
        -1000 <= unit_component(c, s) <= 1000,
{
    let cc = c * c;
    assert(0 <= cc) by (nonlinear_arith)
        requires
            cc == c * c,
    ;
    let q = cc * 1_000_000 / s;
    assert(0 <= q <= 1_000_000) by (nonlinear_arith)
        requires
            q == cc * 1_000_000 / s,
            0 <= cc <= s,
            0 < s,
    ;
    lemma_sqrt_exists(q);
    let root = int_sqrt(q);
    assert(is_sqrt_of(1000, 1_000_000));
    lemma_sqrt_monotone(q, root, 1_000_000, 1000);
}

fn unit_part(c: i128, s: i128) -> (u: i32)
    requires
        -4294967295 <= c <= 4294967295,
        0 < s,
        c * c <= s,
    ensures
        u == unit_component(c as int, s as int),
        -1000 <= u <= 1000,
{
    proof {
        lemma_unit_component_bound(c as int, s as int);
        lemma_square_abs(c as int);
        lemma_square_bound(abs(c as int), 4294967295);
    }
    let cc: i128 = c * c;
    let q: i128 = cc * 1_000_000 / s;
    let root: u64 = isqrt(q as u128);
    if c >= 0 {
        root as i32
    } else {
        -(root as i32)
    }
}

/// The unit vector that points from `from` to `to`, in thousandths. Where
/// the two points are one, the result is the zero vector.
pub fn unit_vector(from: Position, to: Position) -> (dir: (i32, i32))
    ensures
        (dir.0 as int, dir.1 as int) == normalized(to.x - from.x, to.y - from.y),
        -1000 <= dir.0 <= 1000,
        -1000 <= dir.1 <= 1000,
{
    let dx: i128 = to.x as i128 - from.x as i128;
    let dy: i128 = to.y as i128 - from.y as i128;
    proof {
        lemma_square_abs(dx as int);
        lemma_square_abs(dy as int);
        lemma_square_bound(abs(dx as int), 4294967295);
        lemma_square_bound(abs(dy as int), 4294967295);
    }
    let s: i128 = dx * dx + dy * dy;
    if s == 0 {
        (0, 0)
    } else {
        (unit_part(dx, s), unit_part(dy, s))
    }
}

/// The heading that leads from `vec1` to `vec2`.
pub fn get_dir_(vec1: Position, vec2: Position) -> (h: Heading)
    ensures
        h == heading(vec1, vec2),
        -1000 <= h.sin <= 1000,
        -1000 <= h.cos <= 1000,
{
    if vec1.x == vec2.x && vec1.y == vec2.y {
        Heading { sin: 0, cos: 1000 }
    } else {
        let n = unit_vector(vec1, vec2);
        Heading { sin: n.0, cos: n.1 }
    }
}

/// The overlap test does not depend on the order of its two points.
pub proof fn lemma_collision_symmetric(a: Position, b: Position, r: int)
    ensures
        collides(a, b, r) == collides(b, a, r),
{
    assert((b.x - a.x) * (b.x - a.x) == (a.x - b.x) * (a.x - b.x)) by (nonlinear_arith);
    assert((b.y - a.y) * (b.y - a.y) == (a.y - b.y) * (a.y - b.y)) by (nonlinear_arith);
}

} // verus!
