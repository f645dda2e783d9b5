//! The quotient computer end to end on a small addition circuit.

use plonk_arith::field::{Scalar, fe_from_u64, fe_neg, fe_zero, fe_equal, fe_is_zero, fe_add, fe_mul};
use plonk_arith::poly::Poly;
use plonk_arith::domain::{Domain, domain_new, domain_group_gen, ifft};
use plonk_arith::prover_key::ProverKey;
use plonk_arith::widget::{GateValues, Arithmetic, Range, Logic, FixedBaseScalarMul, CurveAddition};
use plonk_arith::permutation::{Permutation, compute_first_lagrange_poly_scaled};
use plonk_arith::quotient_poly::{compute, build_extended_domain, Error};

fn fe(v: u64) -> Scalar {
    fe_from_u64(v)
}

fn zero_poly() -> Poly {
    Poly { coeffs: Vec::new() }
}

// the polynomial taking `value` on the first row of the domain and zero
// on the others
fn row0_poly(d: &Domain, value: Scalar) -> Poly {
    let mut evals: Vec<Scalar> = Vec::new();
    evals.push(value);
    for _ in 1..4 {
        evals.push(fe_zero());
    }
    Poly { coeffs: ifft(d, &evals) }
}

fn linear_poly(k: u64) -> Poly {
    Poly { coeffs: vec![fe(0), fe(k)] }
}

// a four-row circuit with one addition gate a + b = c on row 0 and
// trivially-distinct wiring
fn addition_circuit_key(d: &Domain, d4: &Domain) -> ProverKey {
    ProverKey::from_polys(
        d,
        d4,
        zero_poly(),                     // q_m
        row0_poly(d, fe(1)),             // q_l
        row0_poly(d, fe(1)),             // q_r
        row0_poly(d, fe_neg(&fe(1))),    // q_o
        zero_poly(),                     // q_4
        zero_poly(),                     // q_c
        row0_poly(d, fe(1)),             // q_arith
        zero_poly(),                     // q_range
        zero_poly(),                     // q_logic
        zero_poly(),                     // q_fixed
        zero_poly(),                     // q_var
        linear_poly(1),                  // left sigma: X
        linear_poly(7),                  // right sigma: 7 X
        linear_poly(13),                 // out sigma: 13 X
        linear_poly(17),                 // fourth sigma: 17 X
    )
}

#[test]
fn key_tables_hold_known_values() {
    let d = domain_new(4).unwrap();
    let d4 = build_extended_domain(&d).unwrap();
    let pk = addition_circuit_key(&d, &d4);
    // the first coset point is the multiplicative generator 7
    assert!(fe_equal(&pk.linear_evaluations[0], &fe(7)));
    // the vanishing polynomial X^4 - 1 at that point: 7^4 - 1 = 2400
    assert!(fe_equal(&pk.v_h_coset_evals[0], &fe(2400)));
    assert_eq!(pk.v_h_coset_evals.len(), 16);
}

#[test]
fn quotient_of_satisfied_addition_circuit() {
    let d = domain_new(4).unwrap();
    let d4 = build_extended_domain(&d).unwrap();
    let pk = addition_circuit_key(&d, &d4);
    let w_l = row0_poly(&d, fe(3));
    let w_r = row0_poly(&d, fe(5));
    let w_o = row0_poly(&d, fe(8));
    let w_4 = zero_poly();
    let z_poly = Poly { coeffs: vec![fe(1)] };
    let pi = zero_poly();
    let q = compute(
        &d,
        &d4,
        &pk,
        &z_poly,
        &w_l,
        &w_r,
        &w_o,
        &w_4,
        &pi,
        &fe(1),
        &fe(2),
        &fe(3),
        &fe(4),
        &fe(5),
        &fe(6),
        &fe(8),
    );
    let q = q.unwrap();
    assert_eq!(q.coeffs.len(), 16);
    // the numerator's degree stays far below the table size, so the top
    // quotient coefficients vanish: the division left no remainder
    assert!(q.degree_within(12));
    for i in 13..16 {
        assert!(fe_is_zero(&q.coeffs[i]));
    }
}


#[test]
fn quotient_times_vanishing_reproduces_numerator() {
    // at the first extended coset point, the quotient value times the
    // vanishing value must equal the full constraint numerator there
    let d = domain_new(4).unwrap();
    let d4 = build_extended_domain(&d).unwrap();
    let pk = addition_circuit_key(&d, &d4);
    let w_l = row0_poly(&d, fe(3));
    let w_r = row0_poly(&d, fe(5));
    let w_o = row0_poly(&d, fe(8));
    let w_4 = zero_poly();
    let z_poly = Poly { coeffs: vec![fe(1)] };
    let pi = zero_poly();
    let q = compute(
        &d,
        &d4,
        &pk,
        &z_poly,
        &w_l,
        &w_r,
        &w_o,
        &w_4,
        &pi,
        &fe(1),
        &fe(2),
        &fe(3),
        &fe(4),
        &fe(5),
        &fe(6),
        &fe(8),
    )
    .unwrap();
    // the first coset point is 7; the next-row point four places on is
    // 7 times the base domain's generator
    let pt = fe(7);
    let pt_next = fe_mul(&fe(7), &domain_group_gen(&d));
    let values = GateValues {
        left: w_l.evaluate(&pt),
        right: w_r.evaluate(&pt),
        output: w_o.evaluate(&pt),
        fourth: w_4.evaluate(&pt),
        left_next: w_l.evaluate(&pt_next),
        right_next: w_r.evaluate(&pt_next),
        fourth_next: w_4.evaluate(&pt_next),
        left_selector: pk.left_selector.poly.evaluate(&pt),
        right_selector: pk.right_selector.poly.evaluate(&pt),
        output_selector: pk.output_selector.poly.evaluate(&pt),
        fourth_selector: pk.fourth_selector.poly.evaluate(&pt),
        constant_selector: pk.constant_selector.poly.evaluate(&pt),
        mult_selector: pk.mult_selector.poly.evaluate(&pt),
    };
    let arith = Arithmetic::quotient_term(&pk.arithmetic_selector.poly.evaluate(&pt), &values);
    let range = Range::quotient_term(&pk.range_selector.poly.evaluate(&pt), &fe(4), &values);
    let logic = Logic::quotient_term(&pk.logic_selector.poly.evaluate(&pt), &fe(5), &values);
    let fixed = FixedBaseScalarMul::quotient_term(
        &pk.fixed_group_add_selector.poly.evaluate(&pt),
        &fe(6),
        &values,
    );
    let curve = CurveAddition::quotient_term(
        &pk.variable_group_add_selector.poly.evaluate(&pt),
        &fe(8),
        &values,
    );
    let pi_at = pi.evaluate(&pt);
    let t1 = fe_add(&fe_add(&fe_add(&fe_add(&fe_add(&arith, &pi_at), &range), &logic), &fixed), &curve);
    let l1_alpha_sq = compute_first_lagrange_poly_scaled(&d, &fe(1));
    let t2 = Permutation::compute_quotient_i(
        &pk.linear_evaluations[0],
        &pk.left_sigma.evals[0],
        &pk.right_sigma.evals[0],
        &pk.out_sigma.evals[0],
        &pk.fourth_sigma.evals[0],
        &values.left,
        &values.right,
        &values.output,
        &values.fourth,
        &z_poly.evaluate(&pt),
        &z_poly.evaluate(&pt_next),
        &fe(1),
        &l1_alpha_sq.evaluate(&pt),
        &fe(2),
        &fe(3),
    );
    let numerator = fe_add(&t1, &t2);
    let lhs = fe_mul(&q.evaluate(&pt), &pk.v_h_coset_evals[0]);
    assert!(fe_equal(&lhs, &numerator));
}


#[test]
fn numerator_vanishes_on_satisfied_base_row() {
    // at the first base-domain point the circuit and the wiring hold, so
    // the whole quotient-equation numerator is exactly zero there
    let d = domain_new(4).unwrap();
    let d4 = build_extended_domain(&d).unwrap();
    let pk = addition_circuit_key(&d, &d4);
    let w_l = row0_poly(&d, fe(3));
    let w_r = row0_poly(&d, fe(5));
    let w_o = row0_poly(&d, fe(8));
    let w_4 = zero_poly();
    let z_poly = Poly { coeffs: vec![fe(1)] };
    let pt = fe(1);
    let pt_next = domain_group_gen(&d);
    let values = GateValues {
        left: w_l.evaluate(&pt),
        right: w_r.evaluate(&pt),
        output: w_o.evaluate(&pt),
        fourth: w_4.evaluate(&pt),
        left_next: w_l.evaluate(&pt_next),
        right_next: w_r.evaluate(&pt_next),
        fourth_next: w_4.evaluate(&pt_next),
        left_selector: pk.left_selector.poly.evaluate(&pt),
        right_selector: pk.right_selector.poly.evaluate(&pt),
        output_selector: pk.output_selector.poly.evaluate(&pt),
        fourth_selector: pk.fourth_selector.poly.evaluate(&pt),
        constant_selector: pk.constant_selector.poly.evaluate(&pt),
        mult_selector: pk.mult_selector.poly.evaluate(&pt),
    };
    let arith = Arithmetic::quotient_term(&pk.arithmetic_selector.poly.evaluate(&pt), &values);
    let range = Range::quotient_term(&pk.range_selector.poly.evaluate(&pt), &fe(4), &values);
    let logic = Logic::quotient_term(&pk.logic_selector.poly.evaluate(&pt), &fe(5), &values);
    let fixed = FixedBaseScalarMul::quotient_term(
        &pk.fixed_group_add_selector.poly.evaluate(&pt),
        &fe(6),
        &values,
    );
    let curve = CurveAddition::quotient_term(
        &pk.variable_group_add_selector.poly.evaluate(&pt),
        &fe(8),
        &values,
    );
    let t1 = fe_add(&fe_add(&fe_add(&fe_add(&arith, &range), &logic), &fixed), &curve);
    let l1_alpha_sq = compute_first_lagrange_poly_scaled(&d, &fe(1));
    let t2 = Permutation::compute_quotient_i(
        &pt,
        &pk.left_sigma.poly.evaluate(&pt),
        &pk.right_sigma.poly.evaluate(&pt),
        &pk.out_sigma.poly.evaluate(&pt),
        &pk.fourth_sigma.poly.evaluate(&pt),
        &values.left,
        &values.right,
        &values.output,
        &values.fourth,
        &z_poly.evaluate(&pt),
        &z_poly.evaluate(&pt_next),
        &fe(1),
        &l1_alpha_sq.evaluate(&pt),
        &fe(2),
        &fe(3),
    );
    assert!(fe_is_zero(&fe_add(&t1, &t2)));
}

#[test]
fn quotient_of_violated_circuit_has_excess_degree() {
    // flipping c to 9 leaves a remainder: the division is no longer
    // exact, so the quotient cannot stay within the satisfied bound
    let d = domain_new(4).unwrap();
    let d4 = build_extended_domain(&d).unwrap();
    let pk = addition_circuit_key(&d, &d4);
    let w_l = row0_poly(&d, fe(3));
    let w_r = row0_poly(&d, fe(5));
    let w_o = row0_poly(&d, fe(9));
    let w_4 = zero_poly();
    let z_poly = Poly { coeffs: vec![fe(1)] };
    let pi = zero_poly();
    let q = compute(
        &d,
        &d4,
        &pk,
        &z_poly,
        &w_l,
        &w_r,
        &w_o,
        &w_4,
        &pi,
        &fe(1),
        &fe(2),
        &fe(3),
        &fe(4),
        &fe(5),
        &fe(6),
        &fe(8),
    )
    .unwrap();
    assert!(!q.degree_within(5));
    let mut some_high_coeff_nonzero = false;
    for i in 6..16 {
        if !fe_is_zero(&q.coeffs[i]) {
            some_high_coeff_nonzero = true;
        }
    }
    assert!(some_high_coeff_nonzero);
}

#[test]
fn extended_domain_of_overlarge_base_fails() {
    let d = domain_new(1usize << 31).unwrap();
    let r = build_extended_domain(&d);
    assert!(matches!(r, Err(Error::UnsupportedDomainSize)));
}

#[test]
fn zero_vanishing_table_is_rejected() {
    let d = domain_new(4).unwrap();
    let d4 = build_extended_domain(&d).unwrap();
    let mut pk = addition_circuit_key(&d, &d4);
    let mut zeros: Vec<Scalar> = Vec::new();
    for _ in 0..16 {
        zeros.push(fe_zero());
    }
    pk.v_h_coset_evals = zeros;
    let q = compute(
        &d,
        &d4,
        &pk,
        &Poly { coeffs: vec![fe(1)] },
        &zero_poly(),
        &zero_poly(),
        &zero_poly(),
        &zero_poly(),
        &zero_poly(),
        &fe(1),
        &fe(2),
        &fe(3),
        &fe(4),
        &fe(5),
        &fe(6),
        &fe(8),
    );
    assert!(matches!(q, Err(Error::NonInvertibleEvaluation)));
}
