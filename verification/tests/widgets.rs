//! Gate widget behaviour on concrete rows.

use plonk_arith::field::{Scalar, fe_from_u64, fe_neg, fe_equal, fe_is_zero};
use plonk_arith::widget::{GateValues, Arithmetic, Range, Logic, FixedBaseScalarMul, CurveAddition};

fn fe(v: u64) -> Scalar {
    fe_from_u64(v)
}

fn gate_values(vals: [u64; 13]) -> GateValues {
    GateValues {
        left: fe(vals[0]),
        right: fe(vals[1]),
        output: fe(vals[2]),
        fourth: fe(vals[3]),
        left_next: fe(vals[4]),
        right_next: fe(vals[5]),
        fourth_next: fe(vals[6]),
        left_selector: fe(vals[7]),
        right_selector: fe(vals[8]),
        output_selector: fe(vals[9]),
        fourth_selector: fe(vals[10]),
        constant_selector: fe(vals[11]),
        mult_selector: fe(vals[12]),
    }
}

#[test]
fn arithmetic_constant_selector_dominates() {
    // wires arbitrary, every selector zero but the constant one
    let values = gate_values([9, 11, 2, 3, 1, 4, 6, 0, 0, 0, 0, 5, 0]);
    let term = Arithmetic::quotient_term(&fe(1), &values);
    assert!(fe_equal(&term, &fe(5)));
}

#[test]
fn arithmetic_addition_gate_satisfied() {
    // a + b - c with a=3, b=5, c=8
    let mut values = gate_values([3, 5, 8, 0, 0, 0, 0, 1, 1, 0, 0, 0, 0]);
    values.output_selector = fe_neg(&fe(1));
    let term = Arithmetic::quotient_term(&fe(1), &values);
    assert!(fe_is_zero(&term));
}

#[test]
fn arithmetic_addition_gate_violated() {
    // flipping c to 9 makes the row evaluation nonzero
    let mut values = gate_values([3, 5, 9, 0, 0, 0, 0, 1, 1, 0, 0, 0, 0]);
    values.output_selector = fe_neg(&fe(1));
    let term = Arithmetic::quotient_term(&fe(1), &values);
    assert!(!fe_is_zero(&term));
    assert!(fe_equal(&term, &fe_neg(&fe(1))));
}

#[test]
fn arithmetic_multiplication_gate() {
    // a * b - c with a=6, b=7, c=42
    let mut values = gate_values([6, 7, 42, 0, 0, 0, 0, 0, 0, 0, 0, 0, 1]);
    values.output_selector = fe_neg(&fe(1));
    let term = Arithmetic::quotient_term(&fe(1), &values);
    assert!(fe_is_zero(&term));
}

#[test]
fn range_gate_zero_row() {
    let values = gate_values([0, 0, 0, 0, 0, 0, 0, 0, 0, 0, 0, 0, 0]);
    let term = Range::quotient_term(&fe(1), &fe(1), &values);
    assert!(fe_is_zero(&term));
}

#[test]
fn range_gate_exact_value() {
    // a = 4 with everything else balanced: only D(a - 4b) = D(4) = 24 remains
    let values = gate_values([4, 0, 0, 0, 0, 0, 16, 0, 0, 0, 0, 0, 0]);
    let term = Range::quotient_term(&fe(1), &fe(1), &values);
    assert!(fe_equal(&term, &fe(24)));
}

#[test]
fn logic_gate_exact_value() {
    // all decomposition steps are zero; the output wire carries 2
    let values = gate_values([0, 0, 2, 0, 0, 0, 0, 0, 0, 0, 0, 0, 0]);
    let term = Logic::quotient_term(&fe(1), &fe(1), &values);
    assert!(fe_equal(&term, &fe(2)));
}

#[test]
fn fixed_base_gate_zero_row() {
    let values = gate_values([0, 0, 0, 0, 0, 0, 0, 0, 0, 0, 0, 0, 0]);
    let term = FixedBaseScalarMul::quotient_term(&fe(1), &fe(1), &values);
    assert!(fe_is_zero(&term));
}

#[test]
fn fixed_base_gate_exact_value() {
    // only the next accumulator y-coordinate is set
    let values = gate_values([0, 0, 0, 0, 0, 3, 0, 0, 0, 0, 0, 0, 0]);
    let term = FixedBaseScalarMul::quotient_term(&fe(1), &fe(1), &values);
    assert!(fe_equal(&term, &fe(3)));
}

#[test]
fn curve_addition_gate_exact_value() {
    // only the carried cross product is set: the first component is 5
    let values = gate_values([0, 0, 0, 0, 0, 0, 5, 0, 0, 0, 0, 0, 0]);
    let term = CurveAddition::quotient_term(&fe(1), &fe(1), &values);
    assert!(fe_equal(&term, &fe(5)));
}

#[test]
fn widget_terms_gated_by_selector() {
    // with a zero family selector the term is zero whatever the row holds
    let values = gate_values([1, 2, 3, 4, 5, 6, 7, 8, 9, 10, 11, 12, 13]);
    let term = Range::quotient_term(&fe(0), &fe(1), &values);
    assert!(fe_is_zero(&term));
}
