//! Tests for the exact rotation algebra.

use mand::rotation::{compose, Rotation};

#[test]
fn compose_multiplies_exactly() {
    let a = Rotation { re: 3, im: 4 };
    let r = compose(&a, &a);
    // (3 + 4i)^2 = -7 + 24i, already below the kept bound.
    assert_eq!(r.re, -7);
    assert_eq!(r.im, 24);
}

#[test]
fn compose_with_identity_changes_nothing() {
    let a = Rotation { re: -12345, im: 678 };
    let r = compose(&a, &Rotation::identity());
    assert_eq!(r.re, -12345);
    assert_eq!(r.im, 678);
}

#[test]
fn compose_reduces_large_products_toward_zero() {
    let a = Rotation { re: 60000, im: 0 };
    let r = compose(&a, &a);
    // 3600000000 halved sixteen times lands just below the bound.
    assert_eq!(r.re, 54931);
    assert_eq!(r.im, 0);
}

#[test]
fn invert_cancels_to_the_identity_direction() {
    let a = Rotation { re: 3, im: 4 };
    let r = compose(&a, &a.invert());
    // (3 + 4i)(3 - 4i) = 25: the positive real axis, a rotation by nothing.
    assert_eq!(r.re, 25);
    assert_eq!(r.im, 0);

    let b = Rotation { re: -31415, im: 9265 };
    let rb = compose(&b, &b.invert());
    assert!(rb.re >= 1);
    assert_eq!(rb.im, 0);
}

#[test]
fn invert_conjugates() {
    let a = Rotation { re: 7, im: -11 };
    let inv = a.invert();
    assert_eq!(inv.re, 7);
    assert_eq!(inv.im, 11);
}
