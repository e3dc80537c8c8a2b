//! Unit 2D rotations, held exactly.
//!
//! A rotation is stored as a nonzero integer complex number `(re, im)` and
//! stands for its own normalized direction `(re, im) / |(re, im)|`.
//! Composition is exact complex multiplication; inversion is conjugation
//! (the positive factor `1 / |z|^2` does not change the direction).  After
//! every composition the components are halved toward zero until they fit
//! below a fixed bound, which keeps later arithmetic small — the integer
//! counterpart of renormalizing after every composition.

use vstd::prelude::*;
use crate::fixed::{iabs, tdiv, lemma_tdiv_half, lemma_complex_mul_nonzero, lemma_mul_bounds,
    lemma_mul_subst, div_trunc};

verus! {

/// Stored rotation components stay strictly below this bound.
pub const ROT_BOUND: i64 = 65536;

/// A unit 2D rotation: a nonzero complex number read as its normalized
/// direction.
#[derive(Clone, Copy, PartialEq, Eq, Structural, Debug)]
pub struct Rotation {
    pub re: i64,
    pub im: i64,
}

/// Well-formed rotation: nonzero, components within the kept bound.
pub open spec fn rot_wf(r: Rotation) -> bool {
    &&& !(r.re == 0 && r.im == 0)
    &&& -(ROT_BOUND as int) < r.re < ROT_BOUND as int
    &&& -(ROT_BOUND as int) < r.im < ROT_BOUND as int
}

/// The identity rotation.
pub open spec fn rot_identity() -> Rotation {
    Rotation { re: 1i64, im: 0i64 }
}

/// Halve both components toward zero until they fit below the kept bound.
pub open spec fn spec_reduce(re: int, im: int) -> (int, int)
    decreases iabs(re) + iabs(im),
{
    if -(ROT_BOUND as int) < re < ROT_BOUND as int && -(ROT_BOUND as int) < im < ROT_BOUND as int {
        (re, im)
    } else {
        spec_reduce(tdiv(re, 2), tdiv(im, 2))
    }
}

/// Reduction keeps a nonzero pair nonzero and lands below the bound.
pub proof fn lemma_spec_reduce(re: int, im: int)
    requires
        !(re == 0 && im == 0),
    ensures
        !(spec_reduce(re, im).0 == 0 && spec_reduce(re, im).1 == 0),
        -(ROT_BOUND as int) < spec_reduce(re, im).0 < ROT_BOUND as int,
        -(ROT_BOUND as int) < spec_reduce(re, im).1 < ROT_BOUND as int,
    decreases iabs(re) + iabs(im),
{
    if -(ROT_BOUND as int) < re < ROT_BOUND as int && -(ROT_BOUND as int) < im
        < ROT_BOUND as int {
    } else {
        lemma_tdiv_half(re);
        lemma_tdiv_half(im);
        lemma_spec_reduce(tdiv(re, 2), tdiv(im, 2));
    }
}

/// The reduced form of the complex product of two rotations.
pub open spec fn rot_compose(a: Rotation, b: Rotation) -> Rotation {
    let re = a.re * b.re - a.im * b.im;
    let im = a.re * b.im + a.im * b.re;
    Rotation { re: spec_reduce(re, im).0 as i64, im: spec_reduce(re, im).1 as i64 }
}

/// The conjugate, which stands for the inverse direction.
pub open spec fn rot_invert(a: Rotation) -> Rotation {
    Rotation { re: a.re, im: (-(a.im as int)) as i64 }
}

/// Composing two well-formed rotations gives a well-formed rotation.
pub proof fn lemma_rot_compose_wf(a: Rotation, b: Rotation)
    requires
        rot_wf(a),
        rot_wf(b),
    ensures
        rot_wf(rot_compose(a, b)),
{
    lemma_complex_mul_nonzero(a.re as int, a.im as int, b.re as int, b.im as int);
    lemma_spec_reduce(a.re * b.re - a.im * b.im, a.re * b.im + a.im * b.re);
}

/// The two component identities behind composing with a conjugate.
proof fn lemma_conj_product(re: int, im: int)
    by (nonlinear_arith)
    ensures
        re * re - im * (-im) == re * re + im * im,
        re * (-im) + im * re == 0,
{
}

/// Reduction keeps a positive real value on the positive real axis.
proof fn lemma_reduce_real_axis(s: int)
    requires
        s >= 1,
    ensures
        spec_reduce(s, 0).0 >= 1,
        spec_reduce(s, 0).1 == 0,
    decreases s,
{
    if s >= ROT_BOUND as int {
        lemma_tdiv_half(s);
        lemma_tdiv_half(0);
        lemma_reduce_real_axis(tdiv(s, 2));
    }
}

/// Law: composing a rotation with its inverse gives the identity
/// direction — the result lies on the positive real axis, so its
/// normalized value is exactly the unit rotation by nothing.
pub proof fn lemma_invert_cancels(a: Rotation)
    requires
        rot_wf(a),
    ensures
        rot_compose(a, rot_invert(a)).re >= 1,
        rot_compose(a, rot_invert(a)).im == 0,
{
    let inv = rot_invert(a);
    lemma_mul_subst(a.re as int, inv.re as int, a.re as int, a.re as int);
    lemma_mul_subst(a.im as int, inv.im as int, a.im as int, -(a.im as int));
    lemma_mul_subst(a.re as int, inv.im as int, a.re as int, -(a.im as int));
    lemma_mul_subst(a.im as int, inv.re as int, a.im as int, a.re as int);
    lemma_conj_product(a.re as int, a.im as int);
    crate::fixed::lemma_sq_nonneg(a.re as int);
    crate::fixed::lemma_sq_nonneg(a.im as int);
    if a.re != 0 {
        crate::fixed::lemma_sq_pos(a.re as int);
    } else {
        crate::fixed::lemma_sq_pos(a.im as int);
    }
    let p = a.re * a.re + a.im * a.im;
    lemma_reduce_real_axis(p);
    lemma_spec_reduce(p, 0);
}

/// Composing with the identity changes nothing.
pub proof fn lemma_rot_compose_identity(a: Rotation)
    requires
        rot_wf(a),
    ensures
        rot_compose(a, rot_identity()) == a,
{
}

impl Rotation {
    /// The identity rotation, the starting value of every controller.
    pub fn identity() -> (r: Rotation)
        ensures
            r == rot_identity(),
            rot_wf(r),
    {
        Rotation { re: 1, im: 0 }
    }

    /// The conjugate, standing for the inverse rotation.
    pub fn invert(&self) -> (r: Rotation)
        requires
            rot_wf(*self),
        ensures
            r == rot_invert(*self),
            rot_wf(r),
    {
        Rotation { re: self.re, im: -self.im }
    }
}

/// Halve a pair of machine integers toward zero until both components fit
/// below the kept bound.
pub fn reduce_pair(re: i128, im: i128) -> (r: Rotation)
    requires
        !(re == 0 && im == 0),
        re > i128::MIN,
        im > i128::MIN,
    ensures
        rot_wf(r),
        r.re == spec_reduce(re as int, im as int).0,
        r.im == spec_reduce(re as int, im as int).1,
    decreases iabs(re as int) + iabs(im as int),
{
    let bound = ROT_BOUND as i128;
    if -bound < re && re < bound && -bound < im && im < bound {
        Rotation { re: re as i64, im: im as i64 }
    } else {
        proof {
            lemma_tdiv_half(re as int);
            lemma_tdiv_half(im as int);
        }
        let re2 = div_trunc(re, 2);
        let im2 = div_trunc(im, 2);
        reduce_pair(re2, im2)
    }
}

/// Exact composition of two rotations, reduced back below the kept bound.
pub fn compose(a: &Rotation, b: &Rotation) -> (r: Rotation)
    requires
        rot_wf(*a),
        rot_wf(*b),
    ensures
        rot_wf(r),
        r == rot_compose(*a, *b),
{
    proof {
        lemma_mul_bounds(a.re as int, b.re as int, 65535, 65535);
        lemma_mul_bounds(a.im as int, b.im as int, 65535, 65535);
        lemma_mul_bounds(a.re as int, b.im as int, 65535, 65535);
        lemma_mul_bounds(a.im as int, b.re as int, 65535, 65535);
        lemma_complex_mul_nonzero(a.re as int, a.im as int, b.re as int, b.im as int);
    }
    let pr: i128 = (a.re as i128) * (b.re as i128) - (a.im as i128) * (b.im as i128);
    let pi: i128 = (a.re as i128) * (b.im as i128) + (a.im as i128) * (b.re as i128);
    reduce_pair(pr, pi)
}

} // verus!
