//! The permutation argument on concrete values.

use plonk_arith::field::{Scalar, fe_from_u64, fe_mul, fe_equal, fe_is_zero};
use plonk_arith::permutation::Permutation;

fn fe(v: u64) -> Scalar {
    fe_from_u64(v)
}

fn identity_sigmas(x: u64) -> (Scalar, Scalar, Scalar, Scalar) {
    (fe(x), fe_mul(&fe(7), &fe(x)), fe_mul(&fe(13), &fe(x)), fe_mul(&fe(17), &fe(x)))
}

#[test]
fn identity_wiring_with_constant_accumulator_vanishes() {
    // each sigma equals its wire's identity ordering and z does not move:
    // only the boundary term remains, and with z = 1 it is zero too
    let (s1, s2, s3, s4) = identity_sigmas(5);
    let t = Permutation::compute_quotient_i(
        &fe(5),
        &s1,
        &s2,
        &s3,
        &s4,
        &fe(2),
        &fe(9),
        &fe(4),
        &fe(6),
        &fe(1),
        &fe(1),
        &fe(3),
        &fe(6),
        &fe(2),
        &fe(11),
    );
    assert!(fe_is_zero(&t));
}

#[test]
fn identity_wiring_reduces_to_boundary_value() {
    // with z = 4 the check reduces to (z - 1) * l1 = 3 * 6 = 18
    let (s1, s2, s3, s4) = identity_sigmas(5);
    let t = Permutation::compute_quotient_i(
        &fe(5),
        &s1,
        &s2,
        &s3,
        &s4,
        &fe(2),
        &fe(9),
        &fe(4),
        &fe(6),
        &fe(4),
        &fe(4),
        &fe(3),
        &fe(6),
        &fe(2),
        &fe(11),
    );
    assert!(fe_equal(&t, &fe(18)));
}

#[test]
fn moved_accumulator_breaks_the_identity_reduction() {
    // with z stepping between rows the two products no longer cancel
    let (s1, s2, s3, s4) = identity_sigmas(5);
    let t = Permutation::compute_quotient_i(
        &fe(5),
        &s1,
        &s2,
        &s3,
        &s4,
        &fe(2),
        &fe(9),
        &fe(4),
        &fe(6),
        &fe(1),
        &fe(2),
        &fe(1),
        &fe(0),
        &fe(2),
        &fe(11),
    );
    assert!(!fe_is_zero(&t));
}
