//! The canonical byte layout of the disclosed evaluations.

use plonk_arith::field::{Scalar, fe_from_u64, fe_neg, fe_equal};
use plonk_arith::linearisation_poly::ProofEvaluations;

fn fe(v: u64) -> Scalar {
    fe_from_u64(v)
}

fn sample_bundle() -> ProofEvaluations {
    ProofEvaluations {
        a_eval: fe(3),
        b_eval: fe(5),
        c_eval: fe(8),
        d_eval: fe(0),
        a_next_eval: fe(13),
        b_next_eval: fe(21),
        d_next_eval: fe(34),
        q_arith_eval: fe(1),
        q_c_eval: fe(0),
        q_l_eval: fe(1),
        q_r_eval: fe(1),
        q_o_eval: fe_neg(&fe(1)),
        q_4_eval: fe(0),
        left_sigma_eval: fe(55),
        right_sigma_eval: fe(89),
        out_sigma_eval: fe(144),
        lin_poly_eval: fe(233),
        perm_eval: fe(377),
    }
}

#[test]
fn wire_format_has_fixed_width() {
    let bytes = sample_bundle().to_bytes();
    assert_eq!(bytes.len(), 576);
    // little-endian canonical encoding: the first field starts with 3
    assert_eq!(bytes[0], 3);
    assert_eq!(bytes[1], 0);
    // the second field starts at offset 32 with 5
    assert_eq!(bytes[32], 5);
}

#[test]
fn wire_format_round_trips() {
    let pe = sample_bundle();
    let bytes = pe.to_bytes();
    let back = ProofEvaluations::from_bytes(&bytes).unwrap();
    assert!(fe_equal(&back.a_eval, &pe.a_eval));
    assert!(fe_equal(&back.b_eval, &pe.b_eval));
    assert!(fe_equal(&back.q_o_eval, &pe.q_o_eval));
    assert!(fe_equal(&back.perm_eval, &pe.perm_eval));
    let bytes_again = back.to_bytes();
    assert_eq!(bytes, bytes_again);
}

#[test]
fn wire_format_rejects_wrong_length() {
    let bytes = vec![0u8; 100];
    assert!(ProofEvaluations::from_bytes(&bytes).is_none());
}

#[test]
fn wire_format_rejects_non_canonical_block() {
    // a block of all 0xff encodes a value at least the field's modulus
    let bytes = vec![0xffu8; 576];
    assert!(ProofEvaluations::from_bytes(&bytes).is_none());
}
