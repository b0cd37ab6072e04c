//! Saturating fixed-point arithmetic with nine decimal places.
//!
//! A value `v` of type `i64` stands for the real number `v / UNIT`.
//! Products and quotients are rounded toward negative infinity and then
//! clamped to the range of `i64`.

use vstd::prelude::*;

verus! {

/// The fixed-point representation of `1.0`.
pub const UNIT: i64 = 1_000_000_000;

/// Clamps a mathematical integer to the range of `i64`.
pub open spec fn sat(v: int) -> int {
    if v < i64::MIN {
        i64::MIN as int
    } else if v > i64::MAX {
        i64::MAX as int
    } else {
        v
    }
}

/// Whether `v` is a value of `i64`.
pub open spec fn representable(v: int) -> bool {
    i64::MIN <= v <= i64::MAX
}

/// `a + b`, clamped.
pub open spec fn add_spec(a: int, b: int) -> int {
    sat(a + b)
}

/// `a - b`, clamped.
pub open spec fn sub_spec(a: int, b: int) -> int {
    sat(a - b)
}

/// The fixed-point product `a * b`, rounded down and clamped.
pub open spec fn mul_spec(a: int, b: int) -> int {
    sat((a * b) / (UNIT as int))
}

/// The fixed-point quotient `a / b` for `b != 0`, rounded down and clamped.
/// Division by zero yields zero.
pub open spec fn div_spec(a: int, b: int) -> int {
    if b > 0 {
        sat((a * UNIT) / b)
    } else if b < 0 {
        sat((-a * UNIT) / (-b))
    } else {
        0
    }
}

/// `(a * b) / d` for `d > 0`, rounded down and clamped; zero when `d <= 0`.
pub open spec fn mul_div_spec(a: int, b: int, d: int) -> int {
    if d > 0 {
        sat((a * b) / d)
    } else {
        0
    }
}

/// Whether `s` is a power of ten.
pub open spec fn is_pow10(s: int) -> bool
    decreases s,
{
    s == 1 || (s >= 10 && s % 10 == 0 && is_pow10(s / 10))
}

/// Remainder of `a` by `b > 0` with the sign of `a` (truncated division).
pub open spec fn trunc_rem(a: int, b: int) -> int {
    if a >= 0 {
        a % b
    } else {
        -((-a) % b)
    }
}

/// The product of two `i64` values fits an `i128` with room to spare.
pub proof fn lemma_product_bound(a: int, b: int)
    requires
        i64::MIN <= a <= i64::MAX,
        i64::MIN <= b <= i64::MAX,
    ensures
        -0x4000_0000_0000_0000_0000_0000_0000_0000 <= a * b
            <= 0x4000_0000_0000_0000_0000_0000_0000_0000,
{
    let m: int = 0x8000_0000_0000_0000;
    assert(a * b <= m * m && a * b >= -(m * m)) by (nonlinear_arith)
        requires
            -m <= a <= m,
            -m <= b <= m,
    ;
    assert(m * m == 0x4000_0000_0000_0000_0000_0000_0000_0000) by (nonlinear_arith)
        requires
            m == 0x8000_0000_0000_0000,
    ;
}

proof fn lemma_floor_of_negative(m: int, d: int)
    requires
        m >= 1,
        d > 0,
    ensures
        (-m) / d == -((m - 1) / d) - 1,
{
    let q = (m - 1) / d;
    let r = (m - 1) % d;
    vstd::arithmetic::div_mod::lemma_fundamental_div_mod(m - 1, d);
    vstd::arithmetic::div_mod::lemma_mod_bound(m - 1, d);
    assert(d * q == q * d) by (nonlinear_arith);
    assert(-m == d * (-q - 1) + (d - 1 - r)) by (nonlinear_arith)
        requires
            m - 1 == d * q + r,
    ;
    vstd::arithmetic::div_mod::lemma_fundamental_div_mod_converse(-m, d, -q - 1, d - 1 - r);
}

/// Division rounding toward negative infinity.
pub fn div_floor(n: i128, d: i128) -> (q: i128)
    requires
        d > 0,
        n > i128::MIN,
    ensures
        q == n / d,
{
    if n >= 0 {
        n / d
    } else {
        let m: i128 = -n;
        proof {
            lemma_floor_of_negative(m as int, d as int);
            vstd::arithmetic::div_mod::lemma_div_pos_is_pos((m - 1) as int, d as int);
            vstd::arithmetic::div_mod::lemma_div_is_ordered_by_denominator((m - 1) as int, 1, d as int);
            vstd::arithmetic::div_mod::lemma_div_basics((m - 1) as int);
        }
        let q: i128 = (m - 1) / d;
        -q - 1
    }
}

/// Clamps to the range of `i64`.
pub fn saturate(v: i128) -> (r: i64)
    ensures
        r == sat(v as int),
{
    if v < i64::MIN as i128 {
        i64::MIN
    } else if v > i64::MAX as i128 {
        i64::MAX
    } else {
        v as i64
    }
}

/// Saturating addition.
pub fn sat_add(a: i64, b: i64) -> (r: i64)
    ensures
        r == add_spec(a as int, b as int),
{
    saturate(a as i128 + b as i128)
}

/// Saturating subtraction.
pub fn sat_sub(a: i64, b: i64) -> (r: i64)
    ensures
        r == sub_spec(a as int, b as int),
{
    saturate(a as i128 - b as i128)
}

/// `(a * b) / d`, rounded down and clamped; zero when `d <= 0`.
pub fn mul_div(a: i64, b: i64, d: i64) -> (r: i64)
    ensures
        r == mul_div_spec(a as int, b as int, d as int),
{
    if d <= 0 {
        return 0;
    }
    proof {
        lemma_product_bound(a as int, b as int);
    }
    let p: i128 = a as i128 * b as i128;
    saturate(div_floor(p, d as i128))
}

/// Fixed-point multiplication.
pub fn fixed_mul(a: i64, b: i64) -> (r: i64)
    ensures
        r == mul_spec(a as int, b as int),
{
    mul_div(a, b, UNIT)
}

/// Fixed-point division; zero when `b == 0`.
pub fn fixed_div(a: i64, b: i64) -> (r: i64)
    ensures
        r == div_spec(a as int, b as int),
{
    if b > 0 {
        mul_div(a, UNIT, b)
    } else if b < 0 {
        let n: i128 = -(a as i128) * 1_000_000_000;
        saturate(div_floor(n, -(b as i128)))
    } else {
        0
    }
}

/// Remainder with the sign of the dividend.
pub fn fixed_rem(a: i64, b: i64) -> (r: i64)
    requires
        b > 0,
    ensures
        r == trunc_rem(a as int, b as int),
{
    if a >= 0 {
        a % b
    } else {
        let m: i128 = -(a as i128);
        let k: i128 = m % (b as i128);
        (-k) as i64
    }
}

} // verus!

verus! {

/// A point or vector of the plane in fixed-point coordinates.
#[derive(Clone, Copy, Debug, PartialEq, Eq, Structural)]
pub struct Point2d {
    pub x: i64,
    pub y: i64,
}

impl Point2d {
    /// The point with the given coordinates.
    pub fn new(x: i64, y: i64) -> (p: Point2d)
        ensures
            p == (Point2d { x, y }),
    {
        Point2d { x, y }
    }

    /// The point whose coordinates both equal `value`.
    pub fn all(value: i64) -> (p: Point2d)
        ensures
            p == (Point2d { x: value, y: value }),
    {
        Point2d { x: value, y: value }
    }
}

} // verus!
