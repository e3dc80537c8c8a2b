//! Exact scalar arithmetic for the interaction controllers: clamping,
//! division truncating toward zero, an integer square root, and a small
//! 2D vector of fixed-point components.

use vstd::prelude::*;
use vstd::arithmetic::div_mod::lemma_div_nonincreasing;

verus! {

/// Absolute value of a mathematical integer.
pub open spec fn iabs(v: int) -> int {
    if v < 0 {
        -v
    } else {
        v
    }
}

/// Division truncating toward zero, for positive divisors.  This is the
/// rounding every controller computation uses.
pub open spec fn tdiv(a: int, b: int) -> int {
    if a >= 0 {
        a / b
    } else {
        -((-a) / b)
    }
}

/// Clamp `v` into the closed interval `[lo, hi]`.
pub open spec fn clip(v: int, lo: int, hi: int) -> int {
    if v < lo {
        lo
    } else if v > hi {
        hi
    } else {
        v
    }
}

/// Clamp `v` into the `i64` range and cast.
pub open spec fn clip64(v: int) -> i64 {
    clip(v, i64::MIN as int, i64::MAX as int) as i64
}

/// Add one, stopping at the top of the `u64` range.
pub open spec fn sat_inc(v: u64) -> u64 {
    if v == u64::MAX {
        v
    } else {
        (v + 1) as u64
    }
}

/// Floor of the square root of a nonnegative integer.
pub open spec fn sqrt_floor(v: int) -> int
    decreases v,
{
    if v <= 0 {
        0
    } else {
        let r = 2 * sqrt_floor(v / 4);
        if (r + 1) * (r + 1) <= v {
            r + 1
        } else {
            r
        }
    }
}

/// A 2D vector with exact integer components.  Depending on context the
/// components are whole pixels or millionths of a clip-space unit.
#[derive(Clone, Copy, PartialEq, Eq, Structural, Debug)]
pub struct V2 {
    pub x: i64,
    pub y: i64,
}

/// The zero vector.
pub open spec fn v2_zero() -> V2 {
    V2 { x: 0i64, y: 0i64 }
}

/// `sqrt_floor` really is the floor of the square root.
pub proof fn lemma_sqrt_floor_bounds(v: int)
    requires
        v >= 0,
    ensures
        sqrt_floor(v) >= 0,
        sqrt_floor(v) * sqrt_floor(v) <= v,
        (sqrt_floor(v) + 1) * (sqrt_floor(v) + 1) > v,
    decreases v,
{
    if v > 0 {
        lemma_sqrt_floor_bounds(v / 4);
        let r0 = sqrt_floor(v / 4);
        let r = 2 * r0;
        assert(4 * (v / 4) <= v);
        assert(v < 4 * (v / 4) + 4);
        assert((2 * r0) * (2 * r0) == 4 * (r0 * r0)) by (nonlinear_arith);
        assert((2 * r0 + 2) * (2 * r0 + 2) == 4 * ((r0 + 1) * (r0 + 1))) by (nonlinear_arith);
        assert(4 * (r0 * r0) <= 4 * (v / 4));
        assert(4 * ((r0 + 1) * (r0 + 1)) >= 4 * (v / 4 + 1));
    }
}

/// Range facts that follow from the floor-square-root bounds.
proof fn lemma_sqrt_range_help(r: int, v: int)
    by (nonlinear_arith)
    requires
        r >= 0,
        r * r <= v,
        (r + 1) * (r + 1) > v,
    ensures
        r <= v,
        v >= 1 ==> r >= 1,
{
}

/// The floor square root never exceeds its argument (for `v >= 1` it is at
/// least 1, which keeps later divisors positive).
pub proof fn lemma_sqrt_floor_range(v: int)
    requires
        v >= 0,
    ensures
        sqrt_floor(v) <= v,
        v >= 1 ==> sqrt_floor(v) >= 1,
{
    lemma_sqrt_floor_bounds(v);
    lemma_sqrt_range_help(sqrt_floor(v), v);
}

/// Magnitude bound on a product, from magnitude bounds on its factors.
pub proof fn lemma_mul_bounds(a: int, b: int, ab: int, bb: int)
    by (nonlinear_arith)
    requires
        -ab <= a <= ab,
        -bb <= b <= bb,
        0 <= ab,
        0 <= bb,
    ensures
        -(ab * bb) <= a * b <= ab * bb,
{
}

/// Multiplying two positive integers gives a positive integer.
pub proof fn lemma_mul_pos(a: int, b: int)
    by (nonlinear_arith)
    requires
        a >= 1,
        b >= 1,
    ensures
        a * b >= 1,
{
}

/// Square of a difference, stated over the products themselves.
proof fn lemma_sq_diff(x: int, y: int)
    by (nonlinear_arith)
    ensures
        (x - y) * (x - y) == x * x - 2 * (x * y) + y * y,
{
}

/// Square of a sum, stated over the products themselves.
proof fn lemma_sq_sum(x: int, y: int)
    by (nonlinear_arith)
    ensures
        (x + y) * (x + y) == x * x + 2 * (x * y) + y * y,
{
}

/// The square of a product splits into a product of squares.
proof fn lemma_sq_of_mul(x: int, y: int)
    by (nonlinear_arith)
    ensures
        (x * y) * (x * y) == (x * x) * (y * y),
{
}

/// Rearranging the four factors of a double product.
proof fn lemma_mul_shuffle(a: int, b: int, c: int, d: int)
    by (nonlinear_arith)
    ensures
        (a * c) * (b * d) == (a * d) * (b * c),
{
}

/// Distributing a product of two sums.
proof fn lemma_distrib(p: int, q: int, r: int, s: int)
    by (nonlinear_arith)
    ensures
        (p + q) * (r + s) == p * r + p * s + q * r + q * s,
{
}

/// The squared norm of a complex product is the product of the squared
/// norms of its factors.
pub proof fn lemma_norm_mul(a: int, b: int, c: int, d: int)
    ensures
        (a * c - b * d) * (a * c - b * d) + (a * d + b * c) * (a * d + b * c) == (a * a + b * b)
            * (c * c + d * d),
{
    lemma_sq_diff(a * c, b * d);
    lemma_sq_sum(a * d, b * c);
    lemma_sq_of_mul(a, c);
    lemma_sq_of_mul(b, d);
    lemma_sq_of_mul(a, d);
    lemma_sq_of_mul(b, c);
    lemma_mul_shuffle(a, b, c, d);
    lemma_distrib(a * a, b * b, c * c, d * d);
}

/// The product of two nonzero complex numbers is nonzero.
pub proof fn lemma_complex_mul_nonzero(a: int, b: int, c: int, d: int)
    requires
        !(a == 0 && b == 0),
        !(c == 0 && d == 0),
    ensures
        !(a * c - b * d == 0 && a * d + b * c == 0),
{
    lemma_norm_mul(a, b, c, d);
    assert(a * a + b * b >= 1) by (nonlinear_arith)
        requires
            !(a == 0 && b == 0),
    ;
    assert(c * c + d * d >= 1) by (nonlinear_arith)
        requires
            !(c == 0 && d == 0),
    ;
    lemma_mul_pos(a * a + b * b, c * c + d * d);
}

/// A nonnegative integer whose square is below `b * b` is below `b`.
pub proof fn lemma_sq_bound(r: int, v: int, b: int)
    by (nonlinear_arith)
    requires
        r >= 0,
        b >= 0,
        r * r <= v,
        v < b * b,
    ensures
        r < b,
{
}

/// Truncation toward zero shrinks magnitudes by at least half.
pub proof fn lemma_tdiv_half(v: int)
    ensures
        iabs(tdiv(v, 2)) == iabs(v) / 2,
        2 * (iabs(v) / 2) <= iabs(v),
        iabs(v) >= 2 ==> iabs(tdiv(v, 2)) >= 1,
{
}

/// Pointer coordinates and viewport-relative values are kept within this
/// bound so that every later product fits comfortably in an `i128`.
pub const COORD_LIMIT: i64 = 2147483648;

/// Clamp a pointer coordinate into the kept range.
pub open spec fn clip_coord(v: int) -> i64 {
    clip(v, -(COORD_LIMIT as int), COORD_LIMIT as int) as i64
}

/// The square of a nonzero integer is at least one.
pub proof fn lemma_sq_pos(v: int)
    by (nonlinear_arith)
    requires
        v != 0,
    ensures
        v * v >= 1,
{
}

/// Substituting equal factors into a product (the solver does not do this
/// on its own for nonlinear terms).
pub proof fn lemma_mul_subst(a: int, b: int, a2: int, b2: int)
    by (nonlinear_arith)
    requires
        a == a2,
        b == b2,
    ensures
        a * b == a2 * b2,
{
}

/// A square is never negative.
pub proof fn lemma_sq_nonneg(v: int)
    by (nonlinear_arith)
    ensures
        v * v >= 0,
{
}

/// Norm identity for a product with a conjugate: the squared norm of
/// `(nx + i ny) * (ox - i oy)` is the product of the squared norms.
pub proof fn lemma_conj_norm_mul(nx: int, ny: int, ox: int, oy: int)
    ensures
        (nx * ox + ny * oy) * (nx * ox + ny * oy) + (ny * ox - nx * oy) * (ny * ox - nx * oy) == (
        nx * nx + ny * ny) * (ox * ox + oy * oy),
{
    lemma_sq_sum(nx * ox, ny * oy);
    lemma_sq_diff(ny * ox, nx * oy);
    lemma_sq_of_mul(nx, ox);
    lemma_sq_of_mul(ny, oy);
    lemma_sq_of_mul(ny, ox);
    lemma_sq_of_mul(nx, oy);
    lemma_mul_shuffle(nx, ny, ox, oy);
    lemma_distrib(nx * nx, ny * ny, ox * ox, oy * oy);
}

/// The product of a nonzero complex number with a nonzero conjugate is
/// nonzero.
pub proof fn lemma_conj_mul_nonzero(nx: int, ny: int, ox: int, oy: int)
    requires
        !(nx == 0 && ny == 0),
        !(ox == 0 && oy == 0),
    ensures
        !(nx * ox + ny * oy == 0 && ny * ox - nx * oy == 0),
{
    lemma_conj_norm_mul(nx, ny, ox, oy);
    assert(nx * nx + ny * ny >= 1) by (nonlinear_arith)
        requires
            !(nx == 0 && ny == 0),
    ;
    assert(ox * ox + oy * oy >= 1) by (nonlinear_arith)
        requires
            !(ox == 0 && oy == 0),
    ;
    lemma_mul_pos(nx * nx + ny * ny, ox * ox + oy * oy);
}

/// Clamp a pointer coordinate on machine integers.
pub fn clamp_coord(v: i64) -> (r: i64)
    ensures
        r == clip_coord(v as int),
{
    if v > COORD_LIMIT {
        COORD_LIMIT
    } else if v < -COORD_LIMIT {
        -COORD_LIMIT
    } else {
        v
    }
}

/// Clamp an `i128` into the `i64` range.
pub fn clip_to_i64(v: i128) -> (r: i64)
    ensures
        r == clip64(v as int),
{
    if v > i64::MAX as i128 {
        i64::MAX
    } else if v < i64::MIN as i128 {
        i64::MIN
    } else {
        v as i64
    }
}

/// Clamp an `i128` into `[-bound, bound]`.
pub fn clip_to(v: i128, bound: i128) -> (r: i128)
    requires
        bound >= 0,
    ensures
        r == clip(v as int, -(bound as int), bound as int),
{
    if v > bound {
        bound
    } else if v < -bound {
        -bound
    } else {
        v
    }
}

/// Exact truncating division on machine integers.
pub fn div_trunc(a: i128, b: i128) -> (r: i128)
    requires
        b >= 1,
        a > i128::MIN,
    ensures
        r == tdiv(a as int, b as int),
{
    if a >= 0 {
        proof {
            lemma_div_nonincreasing(a as int, b as int);
        }
        ((a as u128) / (b as u128)) as i128
    } else {
        proof {
            lemma_div_nonincreasing(-a as int, b as int);
        }
        -(((-a) as u128 / (b as u128)) as i128)
    }
}

/// Largest argument `isqrt` accepts; generous for every caller in this crate.
pub const ISQRT_IN_MAX: u128 = 0x1000000000000;

/// Exact floor square root on machine integers.
pub fn isqrt(v: u128) -> (r: u128)
    requires
        v < ISQRT_IN_MAX,
    ensures
        r == sqrt_floor(v as int),
    decreases v,
{
    if v == 0 {
        0
    } else {
        let r0 = isqrt(v / 4);
        proof {
            lemma_sqrt_floor_bounds((v / 4) as int);
            lemma_sq_bound(r0 as int, (v / 4) as int, 0x1000000);
        }
        let r = 2 * r0;
        proof {
            lemma_mul_bounds((r + 1) as int, (r + 1) as int, 0x2000001, 0x2000001);
        }
        if (r + 1) * (r + 1) <= v {
            r + 1
        } else {
            r
        }
    }
}

} // verus!
