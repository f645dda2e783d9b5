//! Gate constraint widgets: the five constraint families of the prover.
//!
//! Each family turns one row's wire and selector values into its
//! contribution to the quotient-equation numerator (`quotient_term`), and
//! turns its selector polynomial into its contribution to the
//! linearisation polynomial (`linearisation_term`).  The two sides share
//! one scalar formula per family, which keeps the two identities
//! consistent with each other.

use vstd::prelude::*;
use crate::field::{Scalar, field_mod, fval, addm, subm, mulm, embedded_curve_d, fe_add, fe_sub,
    fe_mul, fe_from_u64, te_coeff_a, te_coeff_d};
use crate::arith::{lemma_reduced, lemma_mulm_zero, lemma_mulm_one, lemma_addm_zero};
use crate::poly::{Poly, poly_add_ints, poly_scale_ints};

verus! {

/// The bundle of scalar values a gate widget reads at one evaluation
/// point: the four wires, the three "next row" wires, and the six
/// selector values.
pub struct GateValues {
    pub left: Scalar,
    pub right: Scalar,
    pub output: Scalar,
    pub fourth: Scalar,
    pub left_next: Scalar,
    pub right_next: Scalar,
    pub fourth_next: Scalar,
    pub left_selector: Scalar,
    pub right_selector: Scalar,
    pub output_selector: Scalar,
    pub fourth_selector: Scalar,
    pub constant_selector: Scalar,
    pub mult_selector: Scalar,
}

/// The mathematical model of a `GateValues` bundle: the field value of
/// each entry.
pub struct GateValuesSpec {
    pub left: int,
    pub right: int,
    pub output: int,
    pub fourth: int,
    pub left_next: int,
    pub right_next: int,
    pub fourth_next: int,
    pub left_selector: int,
    pub right_selector: int,
    pub output_selector: int,
    pub fourth_selector: int,
    pub constant_selector: int,
    pub mult_selector: int,
}

impl View for GateValues {
    type V = GateValuesSpec;

    open spec fn view(&self) -> GateValuesSpec {
        GateValuesSpec {
            left: fval(self.left),
            right: fval(self.right),
            output: fval(self.output),
            fourth: fval(self.fourth),
            left_next: fval(self.left_next),
            right_next: fval(self.right_next),
            fourth_next: fval(self.fourth_next),
            left_selector: fval(self.left_selector),
            right_selector: fval(self.right_selector),
            output_selector: fval(self.output_selector),
            fourth_selector: fval(self.fourth_selector),
            constant_selector: fval(self.constant_selector),
            mult_selector: fval(self.mult_selector),
        }
    }
}

/// A scalar of the given small value.
pub(crate) fn small_scalar(v: u64) -> (r: Scalar)
    ensures
        fval(r) == v as int,
{
    proof {
        lemma_reduced(v as int);
    }
    fe_from_u64(v)
}

/// `x (x-1) (x-2) (x-3)`: zero exactly when `x` is in `{0, 1, 2, 3}`.
pub open spec fn delta_spec(x: int) -> int {
    mulm(mulm(mulm(x, subm(x, 1)), subm(x, 2)), subm(x, 3))
}

fn delta(x: &Scalar) -> (r: Scalar)
    ensures
        fval(r) == delta_spec(fval(*x)),
{
    let one = small_scalar(1);
    let two = small_scalar(2);
    let three = small_scalar(3);
    let t1 = fe_sub(x, &one);
    let t2 = fe_sub(x, &two);
    let t3 = fe_sub(x, &three);
    let m1 = fe_mul(x, &t1);
    let m2 = fe_mul(&m1, &t2);
    fe_mul(&m2, &t3)
}

/// The arithmetic gate equation at one point:
/// `q_arith (a b q_m + a q_l + b q_r + c q_o + d q_4 + q_c)`.
pub open spec fn arith_quotient_spec(q_arith: int, v: GateValuesSpec) -> int {
    let a = v.left;
    let b = v.right;
    let c = v.output;
    let d = v.fourth;
    let t = addm(
        addm(
            addm(
                addm(
                    addm(mulm(mulm(a, b), v.mult_selector), mulm(a, v.left_selector)),
                    mulm(b, v.right_selector),
                ),
                mulm(c, v.output_selector),
            ),
            mulm(d, v.fourth_selector),
        ),
        v.constant_selector,
    );
    mulm(q_arith, t)
}

/// The coefficients of the arithmetic gate's linearisation contribution:
/// the selector polynomials combined with the disclosed wire evaluations,
/// all scaled by the arithmetic selector's evaluation.
pub open spec fn arith_lin_spec(
    qm: Seq<int>,
    ql: Seq<int>,
    qr: Seq<int>,
    qo: Seq<int>,
    q4: Seq<int>,
    qc: Seq<int>,
    q_arith_eval: int,
    v: GateValuesSpec,
) -> Seq<int> {
    let a = v.left;
    let b = v.right;
    let c = v.output;
    let d = v.fourth;
    poly_scale_ints(
        q_arith_eval,
        poly_add_ints(
            poly_add_ints(
                poly_add_ints(
                    poly_add_ints(
                        poly_add_ints(poly_scale_ints(mulm(a, b), qm), poly_scale_ints(a, ql)),
                        poly_scale_ints(b, qr),
                    ),
                    poly_scale_ints(c, qo),
                ),
                poly_scale_ints(d, q4),
            ),
            qc,
        ),
    )
}

/// The arithmetic gate family.  It carries no separation challenge of its
/// own: it is the base family the others are separated from.
pub struct Arithmetic;

impl Arithmetic {
    /// The arithmetic gate's contribution to the quotient numerator at one
    /// evaluation point.
    pub fn quotient_term(q_arith: &Scalar, values: &GateValues) -> (r: Scalar)
        ensures
            fval(r) == arith_quotient_spec(fval(*q_arith), values@),
    {
        let m0 = fe_mul(&values.left, &values.right);
        let t0 = fe_mul(&m0, &values.mult_selector);
        let t1 = fe_mul(&values.left, &values.left_selector);
        let t2 = fe_mul(&values.right, &values.right_selector);
        let t3 = fe_mul(&values.output, &values.output_selector);
        let t4 = fe_mul(&values.fourth, &values.fourth_selector);
        let s0 = fe_add(&t0, &t1);
        let s1 = fe_add(&s0, &t2);
        let s2 = fe_add(&s1, &t3);
        let s3 = fe_add(&s2, &t4);
        let s4 = fe_add(&s3, &values.constant_selector);
        fe_mul(q_arith, &s4)
    }

    /// The arithmetic gate's linearisation contribution: a polynomial in
    /// the selector polynomials with the wire evaluations as scalars.
    pub fn linearisation_term(
        qm: &Poly,
        ql: &Poly,
        qr: &Poly,
        qo: &Poly,
        q4: &Poly,
        qc: &Poly,
        q_arith_eval: &Scalar,
        values: &GateValues,
    ) -> (r: Poly)
        ensures
            r@ =~= arith_lin_spec(qm@, ql@, qr@, qo@, q4@, qc@, fval(*q_arith_eval), values@),
    {
        let ab = fe_mul(&values.left, &values.right);
        let p0 = qm.scale(&ab);
        let p1 = p0.add_poly(&ql.scale(&values.left));
        let p2 = p1.add_poly(&qr.scale(&values.right));
        let p3 = p2.add_poly(&qo.scale(&values.output));
        let p4 = p3.add_poly(&q4.scale(&values.fourth));
        let p5 = p4.add_poly(qc);
        p5.scale(q_arith_eval)
    }
}

/// The range gate's shared scalar: with `k = ch^2`,
/// `ch (D(c-4d) + k D(b-4c) + k^2 D(a-4b) + k^3 D(d'-4a))`
/// where `D` is `delta_spec` and `d'` is the next-row fourth wire.
pub open spec fn range_scalar_spec(ch: int, v: GateValuesSpec) -> int {
    let a = v.left;
    let b = v.right;
    let c = v.output;
    let d = v.fourth;
    let d_next = v.fourth_next;
    let kappa = mulm(ch, ch);
    let kappa2 = mulm(kappa, kappa);
    let kappa3 = mulm(kappa2, kappa);
    let f1 = delta_spec(subm(c, mulm(4, d)));
    let f2 = delta_spec(subm(b, mulm(4, c)));
    let f3 = delta_spec(subm(a, mulm(4, b)));
    let f4 = delta_spec(subm(d_next, mulm(4, a)));
    let s = addm(addm(addm(f1, mulm(kappa, f2)), mulm(kappa2, f3)), mulm(kappa3, f4));
    mulm(ch, s)
}

/// The range gate family: each wire step must be a two-bit digit.
pub struct Range;

fn range_scalar(ch: &Scalar, v: &GateValues) -> (r: Scalar)
    ensures
        fval(r) == range_scalar_spec(fval(*ch), v@),
{
    let four = small_scalar(4);
    let kappa = fe_mul(ch, ch);
    let kappa2 = fe_mul(&kappa, &kappa);
    let kappa3 = fe_mul(&kappa2, &kappa);
    let f1 = delta(&fe_sub(&v.output, &fe_mul(&four, &v.fourth)));
    let f2 = delta(&fe_sub(&v.right, &fe_mul(&four, &v.output)));
    let f3 = delta(&fe_sub(&v.left, &fe_mul(&four, &v.right)));
    let f4 = delta(&fe_sub(&v.fourth_next, &fe_mul(&four, &v.left)));
    let s0 = fe_add(&f1, &fe_mul(&kappa, &f2));
    let s1 = fe_add(&s0, &fe_mul(&kappa2, &f3));
    let s2 = fe_add(&s1, &fe_mul(&kappa3, &f4));
    fe_mul(ch, &s2)
}

impl Range {
    /// The range gate's contribution to the quotient numerator at one
    /// evaluation point: the shared scalar gated by the range selector.
    pub fn quotient_term(selector: &Scalar, separation_challenge: &Scalar, values: &GateValues) -> (r:
        Scalar)
        ensures
            fval(r) == mulm(fval(*selector), range_scalar_spec(fval(*separation_challenge), values@)),
    {
        let s = range_scalar(separation_challenge, values);
        fe_mul(selector, &s)
    }

    /// The range gate's linearisation contribution: the range selector
    /// polynomial scaled by the shared scalar.
    pub fn linearisation_term(selector_poly: &Poly, separation_challenge: &Scalar, values: &GateValues) -> (r:
        Poly)
        ensures
            r@ =~= poly_scale_ints(
                range_scalar_spec(fval(*separation_challenge), values@),
                selector_poly@,
            ),
    {
        let s = range_scalar(separation_challenge, values);
        selector_poly.scale(&s)
    }
}

/// The logic gate's shared scalar: with `k = ch^2`, the four components
/// check the two-bit decomposition steps of the first, second and fourth
/// wires, and that the output wire holds the product of the two digits.
pub open spec fn logic_scalar_spec(ch: int, v: GateValuesSpec) -> int {
    let a = v.left;
    let b = v.right;
    let c = v.output;
    let d = v.fourth;
    let a_next = v.left_next;
    let b_next = v.right_next;
    let d_next = v.fourth_next;
    let kappa = mulm(ch, ch);
    let kappa2 = mulm(kappa, kappa);
    let kappa3 = mulm(kappa2, kappa);
    let a_diff = subm(a_next, mulm(4, a));
    let b_diff = subm(b_next, mulm(4, b));
    let d_diff = subm(d_next, mulm(4, d));
    let c0 = delta_spec(a_diff);
    let c1 = delta_spec(b_diff);
    let c2 = delta_spec(d_diff);
    let c3 = subm(c, mulm(a_diff, b_diff));
    let s = addm(addm(addm(c0, mulm(kappa, c1)), mulm(kappa2, c2)), mulm(kappa3, c3));
    mulm(ch, s)
}

/// The logic gate family: bitwise decomposition consistency.
pub struct Logic;

fn logic_scalar(ch: &Scalar, v: &GateValues) -> (r: Scalar)
    ensures
        fval(r) == logic_scalar_spec(fval(*ch), v@),
{
    let four = small_scalar(4);
    let kappa = fe_mul(ch, ch);
    let kappa2 = fe_mul(&kappa, &kappa);
    let kappa3 = fe_mul(&kappa2, &kappa);
    let a_diff = fe_sub(&v.left_next, &fe_mul(&four, &v.left));
    let b_diff = fe_sub(&v.right_next, &fe_mul(&four, &v.right));
    let d_diff = fe_sub(&v.fourth_next, &fe_mul(&four, &v.fourth));
    let c0 = delta(&a_diff);
    let c1 = delta(&b_diff);
    let c2 = delta(&d_diff);
    let c3 = fe_sub(&v.output, &fe_mul(&a_diff, &b_diff));
    let s0 = fe_add(&c0, &fe_mul(&kappa, &c1));
    let s1 = fe_add(&s0, &fe_mul(&kappa2, &c2));
    let s2 = fe_add(&s1, &fe_mul(&kappa3, &c3));
    fe_mul(ch, &s2)
}

impl Logic {
    /// The logic gate's contribution to the quotient numerator at one
    /// evaluation point: the shared scalar gated by the logic selector.
    pub fn quotient_term(selector: &Scalar, separation_challenge: &Scalar, values: &GateValues) -> (r:
        Scalar)
        ensures
            fval(r) == mulm(fval(*selector), logic_scalar_spec(fval(*separation_challenge), values@)),
    {
        let s = logic_scalar(separation_challenge, values);
        fe_mul(selector, &s)
    }

    /// The logic gate's linearisation contribution: the logic selector
    /// polynomial scaled by the shared scalar.
    pub fn linearisation_term(selector_poly: &Poly, separation_challenge: &Scalar, values: &GateValues) -> (r:
        Poly)
        ensures
            r@ =~= poly_scale_ints(
                logic_scalar_spec(fval(*separation_challenge), values@),
                selector_poly@,
            ),
    {
        let s = logic_scalar(separation_challenge, values);
        selector_poly.scale(&s)
    }
}

/// The fixed-base scalar multiplication gate's shared scalar.  One step of
/// a double-and-add ladder on the embedded twisted-Edwards curve: the
/// scalar digit is consistent, the precomputed point multiple is selected
/// by the digit, and the accumulator moves by one curve addition.
pub open spec fn fixed_base_scalar_spec(ch: int, v: GateValuesSpec) -> int {
    let acc_x = v.left;
    let acc_y = v.right;
    let acc_x_next = v.left_next;
    let acc_y_next = v.right_next;
    let xy_alpha = v.output;
    let acc_bits = v.fourth;
    let acc_bits_next = v.fourth_next;
    let x_beta = v.left_selector;
    let y_beta = v.right_selector;
    let xy_beta = v.constant_selector;
    let coeff_a = field_mod() - 1;
    let coeff_d = embedded_curve_d();
    let kappa = mulm(ch, ch);
    let kappa2 = mulm(kappa, kappa);
    let kappa3 = mulm(kappa2, kappa);
    let bit = subm(acc_bits_next, mulm(2, acc_bits));
    let b1 = mulm(mulm(bit, subm(bit, 1)), addm(bit, 1));
    let y_alpha = addm(mulm(mulm(bit, bit), subm(y_beta, 1)), 1);
    let x_alpha = mulm(bit, x_beta);
    let b2 = subm(mulm(bit, xy_beta), xy_alpha);
    let dxy = mulm(mulm(mulm(coeff_d, xy_alpha), acc_x), acc_y);
    let b3 = subm(mulm(acc_x_next, addm(1, dxy)), addm(mulm(acc_x, y_alpha), mulm(acc_y, x_alpha)));
    let b4 = subm(
        mulm(acc_y_next, subm(1, dxy)),
        subm(mulm(acc_y, y_alpha), mulm(mulm(coeff_a, acc_x), x_alpha)),
    );
    let s = addm(addm(addm(b1, mulm(kappa, b2)), mulm(kappa2, b3)), mulm(kappa3, b4));
    mulm(ch, s)
}

/// The fixed-base scalar multiplication gate family.
pub struct FixedBaseScalarMul;

fn fixed_base_scalar(ch: &Scalar, v: &GateValues) -> (r: Scalar)
    ensures
        fval(r) == fixed_base_scalar_spec(fval(*ch), v@),
{
    let one = small_scalar(1);
    let two = small_scalar(2);
    let coeff_a = te_coeff_a();
    let coeff_d = te_coeff_d();
    let kappa = fe_mul(ch, ch);
    let kappa2 = fe_mul(&kappa, &kappa);
    let kappa3 = fe_mul(&kappa2, &kappa);
    let bit = fe_sub(&v.fourth_next, &fe_mul(&two, &v.fourth));
    let b1 = fe_mul(&fe_mul(&bit, &fe_sub(&bit, &one)), &fe_add(&bit, &one));
    let y_alpha = fe_add(&fe_mul(&fe_mul(&bit, &bit), &fe_sub(&v.right_selector, &one)), &one);
    let x_alpha = fe_mul(&bit, &v.left_selector);
    let b2 = fe_sub(&fe_mul(&bit, &v.constant_selector), &v.output);
    let dxy = fe_mul(&fe_mul(&fe_mul(&coeff_d, &v.output), &v.left), &v.right);
    let b3 = fe_sub(
        &fe_mul(&v.left_next, &fe_add(&one, &dxy)),
        &fe_add(&fe_mul(&v.left, &y_alpha), &fe_mul(&v.right, &x_alpha)),
    );
    let b4 = fe_sub(
        &fe_mul(&v.right_next, &fe_sub(&one, &dxy)),
        &fe_sub(&fe_mul(&v.right, &y_alpha), &fe_mul(&fe_mul(&coeff_a, &v.left), &x_alpha)),
    );
    let s0 = fe_add(&b1, &fe_mul(&kappa, &b2));
    let s1 = fe_add(&s0, &fe_mul(&kappa2, &b3));
    let s2 = fe_add(&s1, &fe_mul(&kappa3, &b4));
    fe_mul(ch, &s2)
}

impl FixedBaseScalarMul {
    /// The fixed-base gate's contribution to the quotient numerator at one
    /// evaluation point: the shared scalar gated by its selector.
    pub fn quotient_term(selector: &Scalar, separation_challenge: &Scalar, values: &GateValues) -> (r:
        Scalar)
        ensures
            fval(r) == mulm(
                fval(*selector),
                fixed_base_scalar_spec(fval(*separation_challenge), values@),
            ),
    {
        let s = fixed_base_scalar(separation_challenge, values);
        fe_mul(selector, &s)
    }

    /// The fixed-base gate's linearisation contribution: its selector
    /// polynomial scaled by the shared scalar.
    pub fn linearisation_term(selector_poly: &Poly, separation_challenge: &Scalar, values: &GateValues) -> (r:
        Poly)
        ensures
            r@ =~= poly_scale_ints(
                fixed_base_scalar_spec(fval(*separation_challenge), values@),
                selector_poly@,
            ),
    {
        let s = fixed_base_scalar(separation_challenge, values);
        selector_poly.scale(&s)
    }
}

/// The variable-base curve addition gate's shared scalar: one affine
/// twisted-Edwards addition, with the cross product `x1 x2 y1 y2` carried
/// on the next-row fourth wire.
pub open spec fn curve_addition_scalar_spec(ch: int, v: GateValuesSpec) -> int {
    let x1 = v.left;
    let y1 = v.right;
    let x2 = v.output;
    let y2 = v.fourth;
    let x3 = v.left_next;
    let y3 = v.right_next;
    let xxyy = v.fourth_next;
    let coeff_a = field_mod() - 1;
    let coeff_d = embedded_curve_d();
    let kappa = mulm(ch, ch);
    let kappa2 = mulm(kappa, kappa);
    let c1 = subm(xxyy, mulm(mulm(mulm(x1, x2), y1), y2));
    let c2 = subm(mulm(x3, addm(1, mulm(coeff_d, xxyy))), addm(mulm(x1, y2), mulm(x2, y1)));
    let c3 = subm(mulm(y3, subm(1, mulm(coeff_d, xxyy))), subm(mulm(y1, y2), mulm(mulm(coeff_a, x1), x2)));
    let s = addm(addm(c1, mulm(kappa, c2)), mulm(kappa2, c3));
    mulm(ch, s)
}

/// The variable-base curve addition gate family.
pub struct CurveAddition;

fn curve_addition_scalar(ch: &Scalar, v: &GateValues) -> (r: Scalar)
    ensures
        fval(r) == curve_addition_scalar_spec(fval(*ch), v@),
{
    let one = small_scalar(1);
    let coeff_a = te_coeff_a();
    let coeff_d = te_coeff_d();
    let kappa = fe_mul(ch, ch);
    let kappa2 = fe_mul(&kappa, &kappa);
    let c1 = fe_sub(
        &v.fourth_next,
        &fe_mul(&fe_mul(&fe_mul(&v.left, &v.output), &v.right), &v.fourth),
    );
    let c2 = fe_sub(
        &fe_mul(&v.left_next, &fe_add(&one, &fe_mul(&coeff_d, &v.fourth_next))),
        &fe_add(&fe_mul(&v.left, &v.fourth), &fe_mul(&v.output, &v.right)),
    );
    let c3 = fe_sub(
        &fe_mul(&v.right_next, &fe_sub(&one, &fe_mul(&coeff_d, &v.fourth_next))),
        &fe_sub(&fe_mul(&v.right, &v.fourth), &fe_mul(&fe_mul(&coeff_a, &v.left), &v.output)),
    );
    let s0 = fe_add(&c1, &fe_mul(&kappa, &c2));
    let s1 = fe_add(&s0, &fe_mul(&kappa2, &c3));
    fe_mul(ch, &s1)
}

impl CurveAddition {
    /// The curve addition gate's contribution to the quotient numerator at
    /// one evaluation point: the shared scalar gated by its selector.
    pub fn quotient_term(selector: &Scalar, separation_challenge: &Scalar, values: &GateValues) -> (r:
        Scalar)
        ensures
            fval(r) == mulm(
                fval(*selector),
                curve_addition_scalar_spec(fval(*separation_challenge), values@),
            ),
    {
        let s = curve_addition_scalar(separation_challenge, values);
        fe_mul(selector, &s)
    }

    /// The curve addition gate's linearisation contribution: its selector
    /// polynomial scaled by the shared scalar.
    pub fn linearisation_term(selector_poly: &Poly, separation_challenge: &Scalar, values: &GateValues) -> (r:
        Poly)
        ensures
            r@ =~= poly_scale_ints(
                curve_addition_scalar_spec(fval(*separation_challenge), values@),
                selector_poly@,
            ),
    {
        let s = curve_addition_scalar(separation_challenge, values);
        selector_poly.scale(&s)
    }
}

/// Law: on an arithmetic gate row where every selector but the constant
/// selector is zero, the arithmetic gate equation reduces to the constant
/// selector's value, whatever the wire values hold.
pub proof fn lemma_arith_constant_gate(v: GateValuesSpec)
    requires
        v.mult_selector == 0,
        v.left_selector == 0,
        v.right_selector == 0,
        v.output_selector == 0,
        v.fourth_selector == 0,
        0 <= v.constant_selector < field_mod(),
    ensures
        arith_quotient_spec(1, v) == v.constant_selector,
{
    let a = v.left;
    let b = v.right;
    let c = v.output;
    let d = v.fourth;
    lemma_mulm_zero(mulm(a, b));
    lemma_mulm_zero(a);
    lemma_mulm_zero(b);
    lemma_mulm_zero(c);
    lemma_mulm_zero(d);
    lemma_reduced(0);
    lemma_addm_zero(v.constant_selector);
    lemma_mulm_one(v.constant_selector);
}

} // verus!
