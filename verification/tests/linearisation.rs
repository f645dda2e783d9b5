//! The linearisation computer: disclosed evaluations match the
//! polynomials they are taken from.

use plonk_arith::field::{Scalar, fe_from_u64, fe_neg, fe_mul, fe_zero, fe_equal};
use plonk_arith::poly::Poly;
use plonk_arith::domain::{Domain, domain_new, domain_group_gen, ifft};
use plonk_arith::prover_key::ProverKey;
use plonk_arith::quotient_poly::build_extended_domain;
use plonk_arith::linearisation_poly::compute;

fn fe(v: u64) -> Scalar {
    fe_from_u64(v)
}

fn zero_poly() -> Poly {
    Poly { coeffs: Vec::new() }
}

fn row0_poly(d: &Domain, value: Scalar) -> Poly {
    let mut evals: Vec<Scalar> = Vec::new();
    evals.push(value);
    for _ in 1..4 {
        evals.push(fe_zero());
    }
    Poly { coeffs: ifft(d, &evals) }
}

fn linear_poly(k: u64) -> Poly {
    Poly { coeffs: vec![fe(0), fe(k)] }
}

#[test]
fn disclosed_evaluations_match_their_polynomials() {
    let d = domain_new(4).unwrap();
    let d4 = build_extended_domain(&d).unwrap();
    let pk = ProverKey::from_polys(
        &d,
        &d4,
        zero_poly(),
        row0_poly(&d, fe(1)),
        row0_poly(&d, fe(1)),
        row0_poly(&d, fe_neg(&fe(1))),
        zero_poly(),
        zero_poly(),
        row0_poly(&d, fe(1)),
        zero_poly(),
        zero_poly(),
        zero_poly(),
        zero_poly(),
        linear_poly(1),
        linear_poly(7),
        linear_poly(13),
        linear_poly(17),
    );
    let w_l = row0_poly(&d, fe(3));
    let w_r = row0_poly(&d, fe(5));
    let w_o = row0_poly(&d, fe(8));
    let w_4 = zero_poly();
    let z_poly = Poly { coeffs: vec![fe(1)] };
    let t_x = Poly { coeffs: vec![fe(2), fe(4), fe(6)] };
    let z_challenge = fe(21);
    let (lin_poly, evals) = compute(
        &d,
        &pk,
        &fe(1),
        &fe(2),
        &fe(3),
        &fe(4),
        &fe(5),
        &fe(6),
        &fe(8),
        &z_challenge,
        &w_l,
        &w_r,
        &w_o,
        &w_4,
        &t_x,
        &z_poly,
    );
    assert!(fe_equal(&evals.quot_eval, &t_x.evaluate(&z_challenge)));
    assert!(fe_equal(&evals.proof_evals.a_eval, &w_l.evaluate(&z_challenge)));
    assert!(fe_equal(&evals.proof_evals.b_eval, &w_r.evaluate(&z_challenge)));
    assert!(fe_equal(&evals.proof_evals.c_eval, &w_o.evaluate(&z_challenge)));
    assert!(fe_equal(&evals.proof_evals.q_l_eval, &pk.left_selector.poly.evaluate(&z_challenge)));
    assert!(fe_equal(
        &evals.proof_evals.left_sigma_eval,
        &pk.left_sigma.poly.evaluate(&z_challenge),
    ));
    // the left sigma polynomial is X, so its value at z is z
    assert!(fe_equal(&evals.proof_evals.left_sigma_eval, &z_challenge));
    let shifted = fe_mul(&z_challenge, &domain_group_gen(&d));
    assert!(fe_equal(&evals.proof_evals.a_next_eval, &w_l.evaluate(&shifted)));
    assert!(fe_equal(&evals.proof_evals.perm_eval, &z_poly.evaluate(&shifted)));
    // the accumulator polynomial is the constant one
    assert!(fe_equal(&evals.proof_evals.perm_eval, &fe(1)));
    assert!(fe_equal(&evals.proof_evals.lin_poly_eval, &lin_poly.evaluate(&z_challenge)));
}

#[test]
fn polynomial_evaluation_exact_value() {
    // 2 + 4 X + 6 X^2 at X = 3: 2 + 12 + 54 = 68
    let p = Poly { coeffs: vec![fe(2), fe(4), fe(6)] };
    assert!(fe_equal(&p.evaluate(&fe(3)), &fe(68)));
}
