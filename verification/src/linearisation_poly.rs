//! The linearisation polynomial computer.
//!
//! The constraint system is evaluated symbolically at the challenge point
//! `z`: every wire, selector and sigma polynomial is reduced to its value
//! at `z` (or at `z` times the domain generator for the next-row values),
//! and the selector polynomials stay polynomials.  The result is a
//! low-degree polynomial together with the bundle of disclosed
//! evaluations that the verifier reads.

use vstd::prelude::*;
use crate::field::{Scalar, fval, mulm, fe_mul, fe_copy, fr_bytes, fe_to_bytes, fe_from_bytes};
use crate::poly::{Poly, poly_eval_at, poly_add_ints, poly_scale_ints};
use crate::domain::{Domain, domain_size_spec, domain_gen_spec, domain_group_gen};
use crate::widget::{GateValues, GateValuesSpec, Arithmetic, Range, Logic, FixedBaseScalarMul,
    CurveAddition, arith_lin_spec, range_scalar_spec, logic_scalar_spec, fixed_base_scalar_spec,
    curve_addition_scalar_spec};
use crate::permutation::{Permutation, perm_lin_spec, is_scaled_first_lagrange};
use crate::prover_key::ProverKey;

verus! {

/// The evaluations disclosed in the proof: the wire polynomials at `z`
/// and at `z` times the domain generator, the selector polynomials and
/// the first three sigma polynomials at `z`, the linearisation
/// polynomial at `z`, and the permutation accumulator at the shifted
/// point.
pub struct ProofEvaluations {
    /// Evaluation of the witness polynomial for the left wire at `z`.
    pub a_eval: Scalar,
    /// Evaluation of the witness polynomial for the right wire at `z`.
    pub b_eval: Scalar,
    /// Evaluation of the witness polynomial for the output wire at `z`.
    pub c_eval: Scalar,
    /// Evaluation of the witness polynomial for the fourth wire at `z`.
    pub d_eval: Scalar,
    /// Evaluation of the left wire polynomial at the shifted point.
    pub a_next_eval: Scalar,
    /// Evaluation of the right wire polynomial at the shifted point.
    pub b_next_eval: Scalar,
    /// Evaluation of the fourth wire polynomial at the shifted point.
    pub d_next_eval: Scalar,
    /// Evaluation of the arithmetic selector polynomial at `z`.
    pub q_arith_eval: Scalar,
    /// Evaluation of the constant selector polynomial at `z`.
    pub q_c_eval: Scalar,
    /// Evaluation of the left selector polynomial at `z`.
    pub q_l_eval: Scalar,
    /// Evaluation of the right selector polynomial at `z`.
    pub q_r_eval: Scalar,
    /// Evaluation of the output selector polynomial at `z`.
    pub q_o_eval: Scalar,
    /// Evaluation of the fourth selector polynomial at `z`.
    pub q_4_eval: Scalar,
    /// Evaluation of the left sigma polynomial at `z`.
    pub left_sigma_eval: Scalar,
    /// Evaluation of the right sigma polynomial at `z`.
    pub right_sigma_eval: Scalar,
    /// Evaluation of the out sigma polynomial at `z`.
    pub out_sigma_eval: Scalar,
    /// Evaluation of the linearisation polynomial at `z`.
    pub lin_poly_eval: Scalar,
    /// Evaluation of the permutation accumulator at the shifted point.
    pub perm_eval: Scalar,
}

/// All evaluations produced by the linearisation computer: the disclosed
/// bundle plus the quotient polynomial's value at `z`.
pub struct Evaluations {
    /// The evaluations shipped in the proof.
    pub proof_evals: ProofEvaluations,
    /// Evaluation of the quotient polynomial at `z`.
    pub quot_eval: Scalar,
}

/// The coefficients of the widget part of the linearisation polynomial:
/// every family's linearisation contribution summed, with the wire and
/// selector values fixed at their evaluations.
pub open spec fn gates_lin_spec(
    pk: ProverKey,
    q_arith_eval: int,
    v: GateValuesSpec,
    rc: int,
    lc: int,
    fc: int,
    vc: int,
) -> Seq<int> {
    let arith = arith_lin_spec(
        pk.mult_selector.poly@,
        pk.left_selector.poly@,
        pk.right_selector.poly@,
        pk.output_selector.poly@,
        pk.fourth_selector.poly@,
        pk.constant_selector.poly@,
        q_arith_eval,
        v,
    );
    let range = poly_scale_ints(range_scalar_spec(rc, v), pk.range_selector.poly@);
    let logic = poly_scale_ints(logic_scalar_spec(lc, v), pk.logic_selector.poly@);
    let fixed = poly_scale_ints(fixed_base_scalar_spec(fc, v), pk.fixed_group_add_selector.poly@);
    let curve = poly_scale_ints(
        curve_addition_scalar_spec(vc, v),
        pk.variable_group_add_selector.poly@,
    );
    poly_add_ints(poly_add_ints(poly_add_ints(poly_add_ints(arith, range), logic), fixed), curve)
}

/// The widget part of the linearisation polynomial.
pub fn compute_circuit_satisfiability(
    range_separation_challenge: &Scalar,
    logic_separation_challenge: &Scalar,
    fixed_base_separation_challenge: &Scalar,
    var_base_separation_challenge: &Scalar,
    q_arith_eval: &Scalar,
    values: &GateValues,
    prover_key: &ProverKey,
) -> (r: Poly)
    ensures
        r@ =~= gates_lin_spec(
            *prover_key,
            fval(*q_arith_eval),
            values@,
            fval(*range_separation_challenge),
            fval(*logic_separation_challenge),
            fval(*fixed_base_separation_challenge),
            fval(*var_base_separation_challenge),
        ),
{
    let arithmetic = Arithmetic::linearisation_term(
        &prover_key.mult_selector.poly,
        &prover_key.left_selector.poly,
        &prover_key.right_selector.poly,
        &prover_key.output_selector.poly,
        &prover_key.fourth_selector.poly,
        &prover_key.constant_selector.poly,
        q_arith_eval,
        values,
    );
    let range = Range::linearisation_term(
        &prover_key.range_selector.poly,
        range_separation_challenge,
        values,
    );
    let logic = Logic::linearisation_term(
        &prover_key.logic_selector.poly,
        logic_separation_challenge,
        values,
    );
    let fixed_base_scalar_mul = FixedBaseScalarMul::linearisation_term(
        &prover_key.fixed_group_add_selector.poly,
        fixed_base_separation_challenge,
        values,
    );
    let curve_addition = CurveAddition::linearisation_term(
        &prover_key.variable_group_add_selector.poly,
        var_base_separation_challenge,
        values,
    );
    let p0 = arithmetic.add_poly(&range);
    let p1 = p0.add_poly(&logic);
    let p2 = p1.add_poly(&fixed_base_scalar_mul);
    p2.add_poly(&curve_addition)
}

/// Compute the linearisation polynomial and every disclosed evaluation.
///
/// The returned polynomial is the sum of the widget part and the
/// permutation part, each with the wire values fixed at the challenge
/// point; its own evaluation at `z` is disclosed as `lin_poly_eval`, so
/// a verifier can check the constraint identity from the evaluations
/// alone.
pub fn compute(
    domain: &Domain,
    prover_key: &ProverKey,
    alpha: &Scalar,
    beta: &Scalar,
    gamma: &Scalar,
    range_separation_challenge: &Scalar,
    logic_separation_challenge: &Scalar,
    fixed_base_separation_challenge: &Scalar,
    var_base_separation_challenge: &Scalar,
    z_challenge: &Scalar,
    w_l_poly: &Poly,
    w_r_poly: &Poly,
    w_o_poly: &Poly,
    w_4_poly: &Poly,
    t_x_poly: &Poly,
    z_poly: &Poly,
) -> (r: (Poly, Evaluations))
    ensures
        fval(r.1.quot_eval) == poly_eval_at(t_x_poly@, fval(*z_challenge)),
        fval(r.1.proof_evals.a_eval) == poly_eval_at(w_l_poly@, fval(*z_challenge)),
        fval(r.1.proof_evals.b_eval) == poly_eval_at(w_r_poly@, fval(*z_challenge)),
        fval(r.1.proof_evals.c_eval) == poly_eval_at(w_o_poly@, fval(*z_challenge)),
        fval(r.1.proof_evals.d_eval) == poly_eval_at(w_4_poly@, fval(*z_challenge)),
        fval(r.1.proof_evals.a_next_eval) == poly_eval_at(
            w_l_poly@,
            mulm(fval(*z_challenge), domain_gen_spec(*domain)),
        ),
        fval(r.1.proof_evals.b_next_eval) == poly_eval_at(
            w_r_poly@,
            mulm(fval(*z_challenge), domain_gen_spec(*domain)),
        ),
        fval(r.1.proof_evals.d_next_eval) == poly_eval_at(
            w_4_poly@,
            mulm(fval(*z_challenge), domain_gen_spec(*domain)),
        ),
        fval(r.1.proof_evals.perm_eval) == poly_eval_at(
            z_poly@,
            mulm(fval(*z_challenge), domain_gen_spec(*domain)),
        ),
        fval(r.1.proof_evals.q_arith_eval) == poly_eval_at(
            prover_key.arithmetic_selector.poly@,
            fval(*z_challenge),
        ),
        fval(r.1.proof_evals.q_c_eval) == poly_eval_at(
            prover_key.constant_selector.poly@,
            fval(*z_challenge),
        ),
        fval(r.1.proof_evals.q_l_eval) == poly_eval_at(
            prover_key.left_selector.poly@,
            fval(*z_challenge),
        ),
        fval(r.1.proof_evals.q_r_eval) == poly_eval_at(
            prover_key.right_selector.poly@,
            fval(*z_challenge),
        ),
        fval(r.1.proof_evals.q_o_eval) == poly_eval_at(
            prover_key.output_selector.poly@,
            fval(*z_challenge),
        ),
        fval(r.1.proof_evals.q_4_eval) == poly_eval_at(
            prover_key.fourth_selector.poly@,
            fval(*z_challenge),
        ),
        fval(r.1.proof_evals.left_sigma_eval) == poly_eval_at(
            prover_key.left_sigma.poly@,
            fval(*z_challenge),
        ),
        fval(r.1.proof_evals.right_sigma_eval) == poly_eval_at(
            prover_key.right_sigma.poly@,
            fval(*z_challenge),
        ),
        fval(r.1.proof_evals.out_sigma_eval) == poly_eval_at(
            prover_key.out_sigma.poly@,
            fval(*z_challenge),
        ),
        fval(r.1.proof_evals.lin_poly_eval) == poly_eval_at(r.0@, fval(*z_challenge)),
        exists|l1: Seq<int>|
            #[trigger] is_scaled_first_lagrange(
                l1,
                domain_gen_spec(*domain),
                domain_size_spec(*domain),
                1,
            ) && r.0@ =~= poly_add_ints(
                gates_lin_spec(
                    *prover_key,
                    poly_eval_at(prover_key.arithmetic_selector.poly@, fval(*z_challenge)),
                    lin_gate_values(*prover_key, w_l_poly@, w_r_poly@, w_o_poly@, w_4_poly@, *domain, fval(*z_challenge)),
                    fval(*range_separation_challenge),
                    fval(*logic_separation_challenge),
                    fval(*fixed_base_separation_challenge),
                    fval(*var_base_separation_challenge),
                ),
                perm_lin_spec(
                    fval(*z_challenge),
                    poly_eval_at(prover_key.left_sigma.poly@, fval(*z_challenge)),
                    poly_eval_at(prover_key.right_sigma.poly@, fval(*z_challenge)),
                    poly_eval_at(prover_key.out_sigma.poly@, fval(*z_challenge)),
                    poly_eval_at(w_l_poly@, fval(*z_challenge)),
                    poly_eval_at(w_r_poly@, fval(*z_challenge)),
                    poly_eval_at(w_o_poly@, fval(*z_challenge)),
                    poly_eval_at(w_4_poly@, fval(*z_challenge)),
                    poly_eval_at(z_poly@, mulm(fval(*z_challenge), domain_gen_spec(*domain))),
                    fval(*alpha),
                    poly_eval_at(l1, fval(*z_challenge)),
                    fval(*beta),
                    fval(*gamma),
                    z_poly@,
                    prover_key.fourth_sigma.poly@,
                ),
            ),
{
    let quot_eval = t_x_poly.evaluate(z_challenge);
    let a_eval = w_l_poly.evaluate(z_challenge);
    let b_eval = w_r_poly.evaluate(z_challenge);
    let c_eval = w_o_poly.evaluate(z_challenge);
    let d_eval = w_4_poly.evaluate(z_challenge);
    let left_sigma_eval = prover_key.left_sigma.poly.evaluate(z_challenge);
    let right_sigma_eval = prover_key.right_sigma.poly.evaluate(z_challenge);
    let out_sigma_eval = prover_key.out_sigma.poly.evaluate(z_challenge);
    let q_c_eval = prover_key.constant_selector.poly.evaluate(z_challenge);
    let q_arith_eval = prover_key.arithmetic_selector.poly.evaluate(z_challenge);
    let q_l_eval = prover_key.left_selector.poly.evaluate(z_challenge);
    let q_r_eval = prover_key.right_selector.poly.evaluate(z_challenge);
    let q_o_eval = prover_key.output_selector.poly.evaluate(z_challenge);
    let q_4_eval = prover_key.fourth_selector.poly.evaluate(z_challenge);
    let q_m_eval = prover_key.mult_selector.poly.evaluate(z_challenge);

    let group_gen = domain_group_gen(domain);
    let shifted_z = fe_mul(z_challenge, &group_gen);
    let a_next_eval = w_l_poly.evaluate(&shifted_z);
    let b_next_eval = w_r_poly.evaluate(&shifted_z);
    let d_next_eval = w_4_poly.evaluate(&shifted_z);
    let perm_eval = z_poly.evaluate(&shifted_z);

    let values = GateValues {
        left: crate::field::fe_copy(&a_eval),
        right: crate::field::fe_copy(&b_eval),
        output: crate::field::fe_copy(&c_eval),
        fourth: crate::field::fe_copy(&d_eval),
        left_next: crate::field::fe_copy(&a_next_eval),
        right_next: crate::field::fe_copy(&b_next_eval),
        fourth_next: crate::field::fe_copy(&d_next_eval),
        left_selector: crate::field::fe_copy(&q_l_eval),
        right_selector: crate::field::fe_copy(&q_r_eval),
        output_selector: crate::field::fe_copy(&q_o_eval),
        fourth_selector: crate::field::fe_copy(&q_4_eval),
        constant_selector: crate::field::fe_copy(&q_c_eval),
        mult_selector: q_m_eval,
    };

    let f_1 = compute_circuit_satisfiability(
        range_separation_challenge,
        logic_separation_challenge,
        fixed_base_separation_challenge,
        var_base_separation_challenge,
        &q_arith_eval,
        &values,
        prover_key,
    );

    let f_2 = Permutation::compute_linearisation(
        domain,
        z_challenge,
        alpha,
        beta,
        gamma,
        &a_eval,
        &b_eval,
        &c_eval,
        &d_eval,
        &left_sigma_eval,
        &right_sigma_eval,
        &out_sigma_eval,
        &perm_eval,
        &prover_key.fourth_sigma.poly,
        z_poly,
    );

    let lin_poly = f_1.add_poly(&f_2);
    let lin_poly_eval = lin_poly.evaluate(z_challenge);

    proof {
        assert(values@ =~= lin_gate_values(
            *prover_key,
            w_l_poly@,
            w_r_poly@,
            w_o_poly@,
            w_4_poly@,
            *domain,
            fval(*z_challenge),
        ));
    }

    (
        lin_poly,
        Evaluations {
            proof_evals: ProofEvaluations {
                a_eval,
                b_eval,
                c_eval,
                d_eval,
                a_next_eval,
                b_next_eval,
                d_next_eval,
                q_arith_eval,
                q_c_eval,
                q_l_eval,
                q_r_eval,
                q_o_eval,
                q_4_eval,
                left_sigma_eval,
                right_sigma_eval,
                out_sigma_eval,
                lin_poly_eval,
                perm_eval,
            },
            quot_eval,
        },
    )
}

/// The scalar the verifier recomputes for the permutation part: the
/// accumulator polynomial's value at `z` priced by the identity-side
/// product plus the boundary term, minus the sigma-side product priced
/// by the fourth sigma polynomial's value at `z`.
pub open spec fn perm_lin_value_at(
    zv: int,
    s1: int,
    s2: int,
    s3: int,
    a: int,
    b: int,
    c: int,
    d: int,
    z_next: int,
    alpha: int,
    l1_z: int,
    beta: int,
    gamma: int,
    z_poly_at: int,
    fourth_sigma_at: int,
) -> int {
    let t1 = crate::field::addm(crate::field::addm(a, mulm(beta, zv)), gamma);
    let t2 = crate::field::addm(
        crate::field::addm(b, mulm(beta, mulm(crate::permutation::k1(), zv))),
        gamma,
    );
    let t3 = crate::field::addm(
        crate::field::addm(c, mulm(beta, mulm(crate::permutation::k2(), zv))),
        gamma,
    );
    let t4 = crate::field::addm(
        crate::field::addm(d, mulm(beta, mulm(crate::permutation::k3(), zv))),
        gamma,
    );
    let acc_scale = mulm(mulm(mulm(mulm(t1, t2), t3), t4), alpha);
    let u1 = crate::field::addm(crate::field::addm(a, mulm(beta, s1)), gamma);
    let u2 = crate::field::addm(crate::field::addm(b, mulm(beta, s2)), gamma);
    let u3 = crate::field::addm(crate::field::addm(c, mulm(beta, s3)), gamma);
    let sig_scale = crate::field::subm(0, mulm(mulm(mulm(mulm(mulm(u1, u2), u3), alpha), beta), z_next));
    let boundary = mulm(l1_z, mulm(alpha, alpha));
    crate::field::addm(
        mulm(crate::field::addm(acc_scale, boundary), z_poly_at),
        mulm(sig_scale, fourth_sigma_at),
    )
}

/// Law: the linearisation polynomial's value at the challenge point is
/// exactly the constraint combination the verifier recomputes from the
/// disclosed evaluations alone: every gate family's quotient term formed
/// from the selector evaluations at `z`, plus the permutation part over
/// the accumulator and fourth-sigma values at `z`.
pub proof fn lemma_linearisation_matches_evaluations(
    pk: ProverKey,
    v: GateValuesSpec,
    q_arith_z: int,
    rc: int,
    lc: int,
    fc: int,
    vc: int,
    zv: int,
    s1: int,
    s2: int,
    s3: int,
    perm_ev: int,
    alpha: int,
    l1_z: int,
    beta: int,
    gamma: int,
    z_poly: Seq<int>,
)
    requires
        v.left_selector == poly_eval_at(pk.left_selector.poly@, zv),
        v.right_selector == poly_eval_at(pk.right_selector.poly@, zv),
        v.output_selector == poly_eval_at(pk.output_selector.poly@, zv),
        v.fourth_selector == poly_eval_at(pk.fourth_selector.poly@, zv),
        v.constant_selector == poly_eval_at(pk.constant_selector.poly@, zv),
        v.mult_selector == poly_eval_at(pk.mult_selector.poly@, zv),
    ensures
        poly_eval_at(
            poly_add_ints(
                gates_lin_spec(pk, q_arith_z, v, rc, lc, fc, vc),
                perm_lin_spec(
                    zv,
                    s1,
                    s2,
                    s3,
                    v.left,
                    v.right,
                    v.output,
                    v.fourth,
                    perm_ev,
                    alpha,
                    l1_z,
                    beta,
                    gamma,
                    z_poly,
                    pk.fourth_sigma.poly@,
                ),
            ),
            zv,
        ) == crate::field::addm(
            crate::field::addm(
                crate::field::addm(
                    crate::field::addm(
                        crate::field::addm(
                            crate::widget::arith_quotient_spec(q_arith_z, v),
                            mulm(
                                poly_eval_at(pk.range_selector.poly@, zv),
                                range_scalar_spec(rc, v),
                            ),
                        ),
                        mulm(poly_eval_at(pk.logic_selector.poly@, zv), logic_scalar_spec(lc, v)),
                    ),
                    mulm(
                        poly_eval_at(pk.fixed_group_add_selector.poly@, zv),
                        fixed_base_scalar_spec(fc, v),
                    ),
                ),
                mulm(
                    poly_eval_at(pk.variable_group_add_selector.poly@, zv),
                    curve_addition_scalar_spec(vc, v),
                ),
            ),
            perm_lin_value_at(
                zv,
                s1,
                s2,
                s3,
                v.left,
                v.right,
                v.output,
                v.fourth,
                perm_ev,
                alpha,
                l1_z,
                beta,
                gamma,
                poly_eval_at(z_poly, zv),
                poly_eval_at(pk.fourth_sigma.poly@, zv),
            ),
        ),
{
    let g = gates_lin_spec(pk, q_arith_z, v, rc, lc, fc, vc);
    let p = perm_lin_spec(
        zv,
        s1,
        s2,
        s3,
        v.left,
        v.right,
        v.output,
        v.fourth,
        perm_ev,
        alpha,
        l1_z,
        beta,
        gamma,
        z_poly,
        pk.fourth_sigma.poly@,
    );
    crate::poly::lemma_eval_add(g, p, zv);
    let qm = pk.mult_selector.poly@;
    let ql = pk.left_selector.poly@;
    let qr = pk.right_selector.poly@;
    let qo = pk.output_selector.poly@;
    let q4 = pk.fourth_selector.poly@;
    let qc = pk.constant_selector.poly@;
    let ab = mulm(v.left, v.right);
    let inner = poly_add_ints(
        poly_add_ints(
            poly_add_ints(
                poly_add_ints(
                    poly_add_ints(poly_scale_ints(ab, qm), poly_scale_ints(v.left, ql)),
                    poly_scale_ints(v.right, qr),
                ),
                poly_scale_ints(v.output, qo),
            ),
            poly_scale_ints(v.fourth, q4),
        ),
        qc,
    );
    let arith = poly_scale_ints(q_arith_z, inner);
    let range = poly_scale_ints(range_scalar_spec(rc, v), pk.range_selector.poly@);
    let logic = poly_scale_ints(logic_scalar_spec(lc, v), pk.logic_selector.poly@);
    let fixed = poly_scale_ints(
        fixed_base_scalar_spec(fc, v),
        pk.fixed_group_add_selector.poly@,
    );
    let curve = poly_scale_ints(
        curve_addition_scalar_spec(vc, v),
        pk.variable_group_add_selector.poly@,
    );
    crate::poly::lemma_eval_add(poly_add_ints(poly_add_ints(poly_add_ints(arith, range), logic), fixed), curve, zv);
    crate::poly::lemma_eval_add(poly_add_ints(poly_add_ints(arith, range), logic), fixed, zv);
    crate::poly::lemma_eval_add(poly_add_ints(arith, range), logic, zv);
    crate::poly::lemma_eval_add(arith, range, zv);
    crate::poly::lemma_eval_scale(q_arith_z, inner, zv);
    crate::poly::lemma_eval_add(
        poly_add_ints(
            poly_add_ints(
                poly_add_ints(poly_scale_ints(ab, qm), poly_scale_ints(v.left, ql)),
                poly_scale_ints(v.right, qr),
            ),
            poly_scale_ints(v.output, qo),
        ),
        poly_scale_ints(v.fourth, q4),
        zv,
    );
    crate::poly::lemma_eval_add(
        poly_add_ints(
            poly_add_ints(poly_scale_ints(ab, qm), poly_scale_ints(v.left, ql)),
            poly_scale_ints(v.right, qr),
        ),
        poly_scale_ints(v.output, qo),
        zv,
    );
    crate::poly::lemma_eval_add(
        poly_add_ints(poly_scale_ints(ab, qm), poly_scale_ints(v.left, ql)),
        poly_scale_ints(v.right, qr),
        zv,
    );
    crate::poly::lemma_eval_add(poly_scale_ints(ab, qm), poly_scale_ints(v.left, ql), zv);
    crate::poly::lemma_eval_add(
        poly_add_ints(
            poly_add_ints(
                poly_add_ints(
                    poly_add_ints(poly_scale_ints(ab, qm), poly_scale_ints(v.left, ql)),
                    poly_scale_ints(v.right, qr),
                ),
                poly_scale_ints(v.output, qo),
            ),
            poly_scale_ints(v.fourth, q4),
        ),
        qc,
        zv,
    );
    crate::poly::lemma_eval_scale(ab, qm, zv);
    crate::poly::lemma_eval_scale(v.left, ql, zv);
    crate::poly::lemma_eval_scale(v.right, qr, zv);
    crate::poly::lemma_eval_scale(v.output, qo, zv);
    crate::poly::lemma_eval_scale(v.fourth, q4, zv);
    crate::poly::lemma_eval_scale(range_scalar_spec(rc, v), pk.range_selector.poly@, zv);
    crate::poly::lemma_eval_scale(logic_scalar_spec(lc, v), pk.logic_selector.poly@, zv);
    crate::poly::lemma_eval_scale(
        fixed_base_scalar_spec(fc, v),
        pk.fixed_group_add_selector.poly@,
        zv,
    );
    crate::poly::lemma_eval_scale(
        curve_addition_scalar_spec(vc, v),
        pk.variable_group_add_selector.poly@,
        zv,
    );
    crate::arith::lemma_mulm_comm(range_scalar_spec(rc, v), poly_eval_at(pk.range_selector.poly@, zv));
    crate::arith::lemma_mulm_comm(logic_scalar_spec(lc, v), poly_eval_at(pk.logic_selector.poly@, zv));
    crate::arith::lemma_mulm_comm(
        fixed_base_scalar_spec(fc, v),
        poly_eval_at(pk.fixed_group_add_selector.poly@, zv),
    );
    crate::arith::lemma_mulm_comm(
        curve_addition_scalar_spec(vc, v),
        poly_eval_at(pk.variable_group_add_selector.poly@, zv),
    );
    crate::poly::lemma_eval_add(
        poly_scale_ints(perm_acc_scale(zv, v, alpha, l1_z, beta, gamma), z_poly),
        poly_scale_ints(perm_sig_scale(s1, s2, s3, v, perm_ev, alpha, beta, gamma), pk.fourth_sigma.poly@),
        zv,
    );
    crate::poly::lemma_eval_scale(perm_acc_scale(zv, v, alpha, l1_z, beta, gamma), z_poly, zv);
    crate::poly::lemma_eval_scale(
        perm_sig_scale(s1, s2, s3, v, perm_ev, alpha, beta, gamma),
        pk.fourth_sigma.poly@,
        zv,
    );
}

/// The scalar the permutation part applies to the accumulator polynomial.
pub open spec fn perm_acc_scale(zv: int, v: GateValuesSpec, alpha: int, l1_z: int, beta: int, gamma: int) -> int {
    let t1 = crate::field::addm(crate::field::addm(v.left, mulm(beta, zv)), gamma);
    let t2 = crate::field::addm(
        crate::field::addm(v.right, mulm(beta, mulm(crate::permutation::k1(), zv))),
        gamma,
    );
    let t3 = crate::field::addm(
        crate::field::addm(v.output, mulm(beta, mulm(crate::permutation::k2(), zv))),
        gamma,
    );
    let t4 = crate::field::addm(
        crate::field::addm(v.fourth, mulm(beta, mulm(crate::permutation::k3(), zv))),
        gamma,
    );
    let acc_scale = mulm(mulm(mulm(mulm(t1, t2), t3), t4), alpha);
    let boundary = mulm(l1_z, mulm(alpha, alpha));
    crate::field::addm(acc_scale, boundary)
}

/// The scalar the permutation part applies to the fourth sigma polynomial.
pub open spec fn perm_sig_scale(
    s1: int,
    s2: int,
    s3: int,
    v: GateValuesSpec,
    z_next: int,
    alpha: int,
    beta: int,
    gamma: int,
) -> int {
    let u1 = crate::field::addm(crate::field::addm(v.left, mulm(beta, s1)), gamma);
    let u2 = crate::field::addm(crate::field::addm(v.right, mulm(beta, s2)), gamma);
    let u3 = crate::field::addm(crate::field::addm(v.output, mulm(beta, s3)), gamma);
    crate::field::subm(0, mulm(mulm(mulm(mulm(mulm(u1, u2), u3), alpha), beta), z_next))
}

/// The per-point value bundle of the linearisation path: every wire and
/// selector polynomial reduced to its value at the challenge point, the
/// next-row wires at the shifted point.
pub open spec fn lin_gate_values(
    pk: ProverKey,
    wl: Seq<int>,
    wr: Seq<int>,
    wo: Seq<int>,
    w4: Seq<int>,
    d: Domain,
    zv: int,
) -> GateValuesSpec {
    let zw = mulm(zv, domain_gen_spec(d));
    GateValuesSpec {
        left: poly_eval_at(wl, zv),
        right: poly_eval_at(wr, zv),
        output: poly_eval_at(wo, zv),
        fourth: poly_eval_at(w4, zv),
        left_next: poly_eval_at(wl, zw),
        right_next: poly_eval_at(wr, zw),
        fourth_next: poly_eval_at(w4, zw),
        left_selector: poly_eval_at(pk.left_selector.poly@, zv),
        right_selector: poly_eval_at(pk.right_selector.poly@, zv),
        output_selector: poly_eval_at(pk.output_selector.poly@, zv),
        fourth_selector: poly_eval_at(pk.fourth_selector.poly@, zv),
        constant_selector: poly_eval_at(pk.constant_selector.poly@, zv),
        mult_selector: poly_eval_at(pk.mult_selector.poly@, zv),
    }
}

/// The canonical wire format of the disclosed evaluations: the eighteen
/// field encodings, in disclosure order.
pub open spec fn proof_evaluations_bytes(pe: ProofEvaluations) -> Seq<u8> {
    fr_bytes(pe.a_eval) +
        fr_bytes(pe.b_eval) +
        fr_bytes(pe.c_eval) +
        fr_bytes(pe.d_eval) +
        fr_bytes(pe.a_next_eval) +
        fr_bytes(pe.b_next_eval) +
        fr_bytes(pe.d_next_eval) +
        fr_bytes(pe.q_arith_eval) +
        fr_bytes(pe.q_c_eval) +
        fr_bytes(pe.q_l_eval) +
        fr_bytes(pe.q_r_eval) +
        fr_bytes(pe.q_o_eval) +
        fr_bytes(pe.q_4_eval) +
        fr_bytes(pe.left_sigma_eval) +
        fr_bytes(pe.right_sigma_eval) +
        fr_bytes(pe.out_sigma_eval) +
        fr_bytes(pe.lin_poly_eval) +
        fr_bytes(pe.perm_eval)
}

/// Every field's encoding has the canonical 32-byte width.
pub open spec fn encodings_well_formed(pe: ProofEvaluations) -> bool {
    &&& fr_bytes(pe.a_eval).len() == 32
    &&& fr_bytes(pe.b_eval).len() == 32
    &&& fr_bytes(pe.c_eval).len() == 32
    &&& fr_bytes(pe.d_eval).len() == 32
    &&& fr_bytes(pe.a_next_eval).len() == 32
    &&& fr_bytes(pe.b_next_eval).len() == 32
    &&& fr_bytes(pe.d_next_eval).len() == 32
    &&& fr_bytes(pe.q_arith_eval).len() == 32
    &&& fr_bytes(pe.q_c_eval).len() == 32
    &&& fr_bytes(pe.q_l_eval).len() == 32
    &&& fr_bytes(pe.q_r_eval).len() == 32
    &&& fr_bytes(pe.q_o_eval).len() == 32
    &&& fr_bytes(pe.q_4_eval).len() == 32
    &&& fr_bytes(pe.left_sigma_eval).len() == 32
    &&& fr_bytes(pe.right_sigma_eval).len() == 32
    &&& fr_bytes(pe.out_sigma_eval).len() == 32
    &&& fr_bytes(pe.lin_poly_eval).len() == 32
    &&& fr_bytes(pe.perm_eval).len() == 32
}

/// The field of the bundle at position `j` of the disclosure order.
pub open spec fn field_at(pe: ProofEvaluations, j: int) -> Scalar {
    if j == 0 {
        pe.a_eval
    } else     if j == 1 {
        pe.b_eval
    } else     if j == 2 {
        pe.c_eval
    } else     if j == 3 {
        pe.d_eval
    } else     if j == 4 {
        pe.a_next_eval
    } else     if j == 5 {
        pe.b_next_eval
    } else     if j == 6 {
        pe.d_next_eval
    } else     if j == 7 {
        pe.q_arith_eval
    } else     if j == 8 {
        pe.q_c_eval
    } else     if j == 9 {
        pe.q_l_eval
    } else     if j == 10 {
        pe.q_r_eval
    } else     if j == 11 {
        pe.q_o_eval
    } else     if j == 12 {
        pe.q_4_eval
    } else     if j == 13 {
        pe.left_sigma_eval
    } else     if j == 14 {
        pe.right_sigma_eval
    } else     if j == 15 {
        pe.out_sigma_eval
    } else     if j == 16 {
        pe.lin_poly_eval
    } else {
        pe.perm_eval
    }
}

/// The field values of the bundle, in disclosure order.
pub open spec fn evaluation_values(pe: ProofEvaluations) -> Seq<int> {
    Seq::new(18, |j: int| fval(field_at(pe, j)))
}

fn append_scalar_bytes(out: &mut Vec<u8>, x: &Scalar)
    ensures
        final(out)@ == old(out)@ + fr_bytes(*x),
        fr_bytes(*x).len() == 32,
{
    let mut b = fe_to_bytes(x);
    out.append(&mut b);
}

/// Each 32-byte block of the wire format is one field's encoding.
proof fn lemma_wire_format_blocks(pe: ProofEvaluations, bytes: Seq<u8>)
    requires
        encodings_well_formed(pe),
        bytes == proof_evaluations_bytes(pe),
    ensures
        bytes.len() == 576,
        forall|j: int| 0 <= j < 18 ==> bytes.subrange(32 * j, 32 * j + 32) == fr_bytes(
            #[trigger] field_at(pe, j),
        ),
{
    assert forall|j: int| 0 <= j < 18 implies bytes.subrange(32 * j, 32 * j + 32) == fr_bytes(
        field_at(pe, j),
    ) by {
            if j == 0 {
                assert(bytes.subrange(0, 32) =~= fr_bytes(pe.a_eval));
            } else if j == 1 {
                assert(bytes.subrange(32, 64) =~= fr_bytes(pe.b_eval));
            } else if j == 2 {
                assert(bytes.subrange(64, 96) =~= fr_bytes(pe.c_eval));
            } else if j == 3 {
                assert(bytes.subrange(96, 128) =~= fr_bytes(pe.d_eval));
            } else if j == 4 {
                assert(bytes.subrange(128, 160) =~= fr_bytes(pe.a_next_eval));
            } else if j == 5 {
                assert(bytes.subrange(160, 192) =~= fr_bytes(pe.b_next_eval));
            } else if j == 6 {
                assert(bytes.subrange(192, 224) =~= fr_bytes(pe.d_next_eval));
            } else if j == 7 {
                assert(bytes.subrange(224, 256) =~= fr_bytes(pe.q_arith_eval));
            } else if j == 8 {
                assert(bytes.subrange(256, 288) =~= fr_bytes(pe.q_c_eval));
            } else if j == 9 {
                assert(bytes.subrange(288, 320) =~= fr_bytes(pe.q_l_eval));
            } else if j == 10 {
                assert(bytes.subrange(320, 352) =~= fr_bytes(pe.q_r_eval));
            } else if j == 11 {
                assert(bytes.subrange(352, 384) =~= fr_bytes(pe.q_o_eval));
            } else if j == 12 {
                assert(bytes.subrange(384, 416) =~= fr_bytes(pe.q_4_eval));
            } else if j == 13 {
                assert(bytes.subrange(416, 448) =~= fr_bytes(pe.left_sigma_eval));
            } else if j == 14 {
                assert(bytes.subrange(448, 480) =~= fr_bytes(pe.right_sigma_eval));
            } else if j == 15 {
                assert(bytes.subrange(480, 512) =~= fr_bytes(pe.out_sigma_eval));
            } else if j == 16 {
                assert(bytes.subrange(512, 544) =~= fr_bytes(pe.lin_poly_eval));
            } else {
                assert(bytes.subrange(544, 576) =~= fr_bytes(pe.perm_eval));
            }
    }
}

/// Decode the eighteen scalars of the wire format, in order.
fn parse_scalars(bytes: &[u8]) -> (r: Option<Vec<Scalar>>)
    requires
        bytes@.len() == 576,
    ensures
        r.is_some() ==> r.unwrap()@.len() == 18,
        r.is_some() ==> forall|j: int| 0 <= j < 18 ==> fr_bytes(#[trigger] r.unwrap()@[j])
            == bytes@.subrange(32 * j, 32 * j + 32),
        r.is_some() ==> forall|j: int, v: Scalar|
            #![trigger r.unwrap()@[j], fr_bytes(v)]
            0 <= j < 18 && bytes@.subrange(32 * j, 32 * j + 32) == fr_bytes(v) ==> fval(
                r.unwrap()@[j],
            ) == fval(v),
        r.is_none() ==> exists|j: int|
            #![trigger bytes@.subrange(32 * j, 32 * j + 32)]
            0 <= j < 18 && (forall|v: Scalar| bytes@.subrange(32 * j, 32 * j + 32) != #[trigger] fr_bytes(v)),
{
    let mut out: Vec<Scalar> = Vec::new();
    let mut k: usize = 0;
    while k < 18
        invariant
            bytes@.len() == 576,
            k <= 18,
            out@.len() == k,
            forall|j: int| 0 <= j < k ==> fr_bytes(#[trigger] out@[j]) == bytes@.subrange(
                32 * j,
                32 * j + 32,
            ),
            forall|j: int, v: Scalar|
                #![trigger out@[j], fr_bytes(v)]
                0 <= j < k && bytes@.subrange(32 * j, 32 * j + 32) == fr_bytes(v) ==> fval(
                    out@[j],
                ) == fval(v),
        decreases 18 - k,
    {
        let chunk = vstd::slice::slice_subrange(bytes, 32 * k, 32 * k + 32);
        match fe_from_bytes(chunk) {
            Some(x) => {
                out.push(x);
            },
            None => {
                proof {
                    assert(forall|v: Scalar| bytes@.subrange(32 * k as int, 32 * k as int + 32)
                        != fr_bytes(v));
                }
                return None;
            },
        }
        k = k + 1;
    }
    Some(out)
}

impl ProofEvaluations {
    /// The canonical wire format: the eighteen field encodings in the
    /// fixed disclosure order, 576 bytes in all.
    pub fn to_bytes(&self) -> (r: Vec<u8>)
        ensures
            r@ == proof_evaluations_bytes(*self),
            r@.len() == 576,
            encodings_well_formed(*self),
    {
        let mut out: Vec<u8> = Vec::new();
        append_scalar_bytes(&mut out, &self.a_eval);
        append_scalar_bytes(&mut out, &self.b_eval);
        append_scalar_bytes(&mut out, &self.c_eval);
        append_scalar_bytes(&mut out, &self.d_eval);
        append_scalar_bytes(&mut out, &self.a_next_eval);
        append_scalar_bytes(&mut out, &self.b_next_eval);
        append_scalar_bytes(&mut out, &self.d_next_eval);
        append_scalar_bytes(&mut out, &self.q_arith_eval);
        append_scalar_bytes(&mut out, &self.q_c_eval);
        append_scalar_bytes(&mut out, &self.q_l_eval);
        append_scalar_bytes(&mut out, &self.q_r_eval);
        append_scalar_bytes(&mut out, &self.q_o_eval);
        append_scalar_bytes(&mut out, &self.q_4_eval);
        append_scalar_bytes(&mut out, &self.left_sigma_eval);
        append_scalar_bytes(&mut out, &self.right_sigma_eval);
        append_scalar_bytes(&mut out, &self.out_sigma_eval);
        append_scalar_bytes(&mut out, &self.lin_poly_eval);
        append_scalar_bytes(&mut out, &self.perm_eval);
        proof {
            assert(out@ =~= proof_evaluations_bytes(*self));
        }
        out
    }

    /// Decode the canonical wire format.  The decoding succeeds on every
    /// encoding of a bundle and returns a bundle with the same field
    /// values; whatever it returns re-serializes to the input bytes.
    pub fn from_bytes(bytes: &[u8]) -> (r: Option<ProofEvaluations>)
        ensures
            r.is_some() ==> bytes@ == proof_evaluations_bytes(r.unwrap())
                && encodings_well_formed(r.unwrap()),
            forall|pe: ProofEvaluations|
                #![trigger proof_evaluations_bytes(pe)]
                encodings_well_formed(pe) && bytes@ == proof_evaluations_bytes(pe) ==> r.is_some()
                    && evaluation_values(r.unwrap()) =~= evaluation_values(pe),
    {
        if bytes.len() != 576 {
            proof {
                assert forall|pe: ProofEvaluations|
                    encodings_well_formed(pe) && bytes@ == proof_evaluations_bytes(pe)
                    implies false by {
                    lemma_wire_format_blocks(pe, bytes@);
                }
            }
            return None;
        }
        match parse_scalars(bytes) {
            None => {
                proof {
                    assert forall|pe: ProofEvaluations|
                        encodings_well_formed(pe) && bytes@ == proof_evaluations_bytes(pe)
                        implies false by {
                        lemma_wire_format_blocks(pe, bytes@);
                        let j = choose|j: int|
                            #![trigger bytes@.subrange(32 * j, 32 * j + 32)]
                            0 <= j < 18 && (forall|v: Scalar| bytes@.subrange(32 * j, 32 * j + 32)
                                != #[trigger] fr_bytes(v));
                        assert(bytes@.subrange(32 * j, 32 * j + 32) == fr_bytes(field_at(pe, j)));
                    }
                }
                None
            },
            Some(s) => {
                let pe = ProofEvaluations {
                    a_eval: fe_copy(&s[0]),
                    b_eval: fe_copy(&s[1]),
                    c_eval: fe_copy(&s[2]),
                    d_eval: fe_copy(&s[3]),
                    a_next_eval: fe_copy(&s[4]),
                    b_next_eval: fe_copy(&s[5]),
                    d_next_eval: fe_copy(&s[6]),
                    q_arith_eval: fe_copy(&s[7]),
                    q_c_eval: fe_copy(&s[8]),
                    q_l_eval: fe_copy(&s[9]),
                    q_r_eval: fe_copy(&s[10]),
                    q_o_eval: fe_copy(&s[11]),
                    q_4_eval: fe_copy(&s[12]),
                    left_sigma_eval: fe_copy(&s[13]),
                    right_sigma_eval: fe_copy(&s[14]),
                    out_sigma_eval: fe_copy(&s[15]),
                    lin_poly_eval: fe_copy(&s[16]),
                    perm_eval: fe_copy(&s[17]),
                };
                proof {
                    assert(bytes@ =~= proof_evaluations_bytes(pe));
                    assert forall|pe2: ProofEvaluations|
                        encodings_well_formed(pe2) && bytes@ == proof_evaluations_bytes(pe2)
                        implies evaluation_values(pe) =~= evaluation_values(pe2) by {
                        lemma_wire_format_blocks(pe2, bytes@);
                        assert forall|j: int| 0 <= j < 18 implies fval(field_at(pe, j)) == fval(
                            field_at(pe2, j),
                        ) by {
                            assert(bytes@.subrange(32 * j, 32 * j + 32) == fr_bytes(
                                field_at(pe2, j),
                            ));
                            assert(fval(s@[j]) == fval(field_at(pe2, j)));
                        }
                    }
                }
                Some(pe)
            },
        }
    }
}

} // verus!
