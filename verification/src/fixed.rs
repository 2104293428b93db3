//! Fixed-point helpers: thousandths, saturation, truncating division and
//! integer square roots.

use vstd::prelude::*;

verus! {

/// Quotient of `n` by a positive `d`, rounded toward zero.
pub open spec fn trunc_div(n: int, d: int) -> int {
    if n >= 0 {
        n / d
    } else {
        -((-n) / d)
    }
}

/// `v` brought into the range of `i32`.
pub open spec fn clamp_i32(v: int) -> int {
    if v < i32::MIN {
        i32::MIN as int
    } else if v > i32::MAX {
        i32::MAX as int
    } else {
        v
    }
}

pub fn div_toward_zero(n: i128, d: i128) -> (q: i128)
    requires
        d > 0,
        n > i128::MIN,
    ensures
        q == trunc_div(n as int, d as int),
{
    if n >= 0 {
        n / d
    } else {
        let m: i128 = -n;
        let p: i128 = m / d;
        -p
    }
}

pub fn saturate(v: i128) -> (r: i32)
    ensures
        r == clamp_i32(v as int),
{
    if v < -2147483648 {
        -2147483648
    } else if v > 2147483647 {
        2147483647
    } else {
        v as i32
    }
}

/// `r` is the integer square root of `n`: the largest integer whose square
/// does not exceed `n`.
pub open spec fn is_sqrt_of(r: int, n: int) -> bool {
    0 <= r && r * r <= n < (r + 1) * (r + 1)
}

/// The integer square root of a non-negative `n`.
pub open spec fn int_sqrt(n: int) -> int {
    choose|r: int| is_sqrt_of(r, n)
}

/// A number has at most one integer square root.
pub proof fn lemma_sqrt_unique(n: int, r1: int, r2: int)
    requires
        is_sqrt_of(r1, n),
        is_sqrt_of(r2, n),
    ensures
        r1 == r2,
{
    if r1 < r2 {
        assert((r1 + 1) * (r1 + 1) <= r2 * r2) by (nonlinear_arith)
            requires
                0 <= r1 + 1 <= r2,
        ;
    }
    if r2 < r1 {
        assert((r2 + 1) * (r2 + 1) <= r1 * r1) by (nonlinear_arith)
            requires
                0 <= r2 + 1 <= r1,
        ;
    }
}

/// Whatever satisfies `is_sqrt_of` is the value of `int_sqrt`.
pub proof fn lemma_int_sqrt(n: int, r: int)
    requires
        is_sqrt_of(r, n),
    ensures
        int_sqrt(n) == r,
{
    lemma_sqrt_unique(n, r, int_sqrt(n));
}

/// Every non-negative number has an integer square root.
pub proof fn lemma_sqrt_exists(n: int)
    requires
        0 <= n,
    ensures
        is_sqrt_of(int_sqrt(n), n),
    decreases n,
{
    if n == 0 {
        assert(is_sqrt_of(0, 0));
    } else {
        lemma_sqrt_exists(n - 1);
        let r = int_sqrt(n - 1);
        if (r + 1) * (r + 1) <= n {
            assert((r + 2) * (r + 2) > (r + 1) * (r + 1)) by (nonlinear_arith)
                requires
                    0 <= r,
            ;
            assert(is_sqrt_of(r + 1, n));
        } else {
            assert(is_sqrt_of(r, n));
        }
    }
}

/// The integer square root is monotone.
pub proof fn lemma_sqrt_monotone(n1: int, r1: int, n2: int, r2: int)
    requires
        is_sqrt_of(r1, n1),
        is_sqrt_of(r2, n2),
        n1 <= n2,
    ensures
        r1 <= r2,
{
    if r2 < r1 {
        assert((r2 + 1) * (r2 + 1) <= r1 * r1) by (nonlinear_arith)
            requires
                0 <= r2 + 1 <= r1,
        ;
    }
}

/// Integer square root by bisection.
pub fn isqrt(n: u128) -> (r: u64)
    ensures
        is_sqrt_of(r as int, n as int),
        r == int_sqrt(n as int),
{
    let mut lo: u128 = 0;
    let mut hi: u128 = 18446744073709551616;
    assert(hi * hi > n) by (nonlinear_arith)
        requires
            hi == 18446744073709551616,
            n <= u128::MAX,
    ;
    while hi - lo > 1
        invariant
            lo < hi <= 18446744073709551616,
            lo * lo <= n < hi * hi,
        decreases hi - lo,
    {
        let mid: u128 = lo + (hi - lo) / 2;
        assert(mid * mid <= 18446744073709551615 * 18446744073709551615) by (nonlinear_arith)
            requires
                0 <= mid <= 18446744073709551615,
        ;
        if mid * mid <= n {
            lo = mid;
        } else {
            hi = mid;
        }
    }
    proof {
        lemma_int_sqrt(n as int, lo as int);
    }
    lo as u64
}

/// Absolute value.
pub open spec fn abs(v: int) -> int {
    if v < 0 {
        -v
    } else {
        v
    }
}

/// A product is no larger in size than the product of the sizes' bounds.
pub proof fn lemma_mul_bound(a: int, b: int, bound_a: int, bound_b: int)
    requires
        -bound_a <= a <= bound_a,
        -bound_b <= b <= bound_b,
    ensures
        -(bound_a * bound_b) <= a * b <= bound_a * bound_b,
{
    assert(-(bound_a * bound_b) <= a * b <= bound_a * bound_b) by (nonlinear_arith)
        requires
            -bound_a <= a <= bound_a,
            -bound_b <= b <= bound_b,
    ;
}

/// Truncating division by a positive number keeps the sign and does not
/// grow the size.
pub proof fn lemma_trunc_div_bound(n: int, d: int, bound: int)
    requires
        d > 0,
        -bound <= n <= bound,
    ensures
        -bound <= trunc_div(n, d) <= bound,
        n >= 0 ==> 0 <= trunc_div(n, d) <= n,
        n <= 0 ==> n <= trunc_div(n, d) <= 0,
{
    if n >= 0 {
        assert(0 <= n / d <= n) by (nonlinear_arith)
            requires
                n >= 0,
                d > 0,
        ;
    } else {
        assert(0 <= (-n) / d <= -n) by (nonlinear_arith)
            requires
                n < 0,
                d > 0,
        ;
    }
}

/// The cosine of `t` thousandths of a radian for `t` up to a quarter turn,
/// in thousandths, after Bhaskara's rational formula.
pub open spec fn quarter_cosine(t: int) -> int {
    1000 * (9_869_604 - 4 * (t * t)) / (9_869_604 + t * t)
}

/// The cosine of `angle` thousandths of a radian, in thousandths: the
/// rational formula of the first quarter turn, carried over to the others
/// by the symmetries of the cosine. A full turn counts 6283 thousandths.
pub open spec fn cosine(angle: int) -> int {
    let r = abs(angle) % 6283;
    let m = if r > 3141 {
        6283 - r
    } else {
        r
    };
    if m <= 1570 {
        quarter_cosine(m)
    } else {
        -quarter_cosine(3141 - m)
    }
}

proof fn lemma_quarter_cosine_bounds(t: int)
    requires
        0 <= t <= 1570,
    ensures
        0 <= t * t <= 2_464_900,
        0 <= quarter_cosine(t) <= 1000,
{
    let tt = t * t;
    assert(0 <= tt <= 2_464_900) by (nonlinear_arith)
        requires
            tt == t * t,
            0 <= t <= 1570,
    ;
    let n = 1000 * (9_869_604 - 4 * tt);
    let d = 9_869_604 + tt;
    assert(0 <= n / d <= 1000) by (nonlinear_arith)
        requires
            0 <= n <= 1000 * d,
            d > 0,
    ;
}

/// The cosine never leaves the range from minus one to one.
pub proof fn lemma_cosine_bounds(angle: int)
    ensures
        -1000 <= cosine(angle) <= 1000,
{
    let r = abs(angle) % 6283;
    let m = if r > 3141 {
        6283 - r
    } else {
        r
    };
    if m <= 1570 {
        lemma_quarter_cosine_bounds(m);
    } else {
        lemma_quarter_cosine_bounds(3141 - m);
    }
}

fn quarter_cos(t: i64) -> (c: i64)
    requires
        0 <= t <= 1570,
    ensures
        c == quarter_cosine(t as int),
        0 <= c <= 1000,
{
    proof {
        lemma_quarter_cosine_bounds(t as int);
    }
    let tt: i64 = t * t;
    1000 * (9_869_604 - 4 * tt) / (9_869_604 + tt)
}

/// The cosine of `angle` thousandths of a radian, in thousandths.
pub fn cos_milli(angle: i64) -> (c: i32)
    ensures
        c == cosine(angle as int),
        -1000 <= c <= 1000,
{
    let a: i128 = if angle < 0 {
        -(angle as i128)
    } else {
        angle as i128
    };
    let r: i64 = (a % 6283) as i64;
    let m: i64 = if r > 3141 {
        6283 - r
    } else {
        r
    };
    if m <= 1570 {
        quarter_cos(m) as i32
    } else {
        (-quarter_cos(3141 - m)) as i32
    }
}

} // verus!
