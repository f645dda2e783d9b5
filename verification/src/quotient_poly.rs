//! The quotient polynomial computer.
//!
//! The full constraint system is evaluated pointwise on the coset of the
//! four-fold extended domain, divided there by the vanishing polynomial of
//! the base domain, and inverse-transformed back to coefficient form.

use vstd::prelude::*;
use crate::field::{Scalar, fval, vals, addm, mulm, fe_add, fe_mul, fe_copy, fe_inverse};
use crate::arith::{lemma_mulm_assoc, lemma_mulm_comm, lemma_mulm_one, lemma_mod_bounds};
use crate::poly::{Poly, poly_eval_at};
use crate::domain::{Domain, domain_size, domain_size_spec, domain_gen_spec, coset_point,
    coset_fft, coset_ifft, is_pow_two};
use crate::widget::{GateValues, GateValuesSpec, Arithmetic, Range, Logic, FixedBaseScalarMul,
    CurveAddition, arith_quotient_spec, range_scalar_spec, logic_scalar_spec,
    fixed_base_scalar_spec, curve_addition_scalar_spec};
use crate::permutation::{Permutation, perm_quotient_spec, is_scaled_first_lagrange,
    compute_first_lagrange_poly_scaled};
use crate::prover_key::ProverKey;
use crate::next_row_index;

verus! {

/// The errors of the arithmetic core.
#[derive(Debug, PartialEq, Eq, Structural)]
pub enum Error {
    /// No evaluation domain of the requested size exists for the field.
    UnsupportedDomainSize,
    /// A vanishing-polynomial evaluation on the extended coset was zero,
    /// which the coset is chosen to rule out.
    NonInvertibleEvaluation,
}

/// The extended-table index holding the "next row" value for index `i`.
pub open spec fn next_idx(i: int, m: nat) -> int {
    (i + 4) % (m as int)
}

/// The per-point value bundle read from the extended evaluation tables at
/// index `i`, with `ni` the wrapped next-row index.
pub open spec fn table_gate_values(
    wl: Seq<int>,
    wr: Seq<int>,
    wo: Seq<int>,
    w4: Seq<int>,
    sm: Seq<int>,
    sl: Seq<int>,
    sr: Seq<int>,
    so: Seq<int>,
    s4: Seq<int>,
    sc: Seq<int>,
    i: int,
    ni: int,
) -> GateValuesSpec {
    GateValuesSpec {
        left: wl[i],
        right: wr[i],
        output: wo[i],
        fourth: w4[i],
        left_next: wl[ni],
        right_next: wr[ni],
        fourth_next: w4[ni],
        left_selector: sl[i],
        right_selector: sr[i],
        output_selector: so[i],
        fourth_selector: s4[i],
        constant_selector: sc[i],
        mult_selector: sm[i],
    }
}

/// The sum of all five gate families' quotient terms plus the public
/// input value at one point.
pub open spec fn gates_sum_spec(
    v: GateValuesSpec,
    q_arith: int,
    q_range: int,
    q_logic: int,
    q_fixed: int,
    q_var: int,
    pi: int,
    rc: int,
    lc: int,
    fc: int,
    vc: int,
) -> int {
    let arith = arith_quotient_spec(q_arith, v);
    let range = mulm(q_range, range_scalar_spec(rc, v));
    let logic = mulm(q_logic, logic_scalar_spec(lc, v));
    let fixed = mulm(q_fixed, fixed_base_scalar_spec(fc, v));
    let curve = mulm(q_var, curve_addition_scalar_spec(vc, v));
    addm(addm(addm(addm(addm(arith, pi), range), logic), fixed), curve)
}

/// The circuit-satisfiability term at extended index `i`, over the
/// prover key's tables and the wire evaluation tables.
pub open spec fn circuit_term_at(
    pk: ProverKey,
    wl: Seq<int>,
    wr: Seq<int>,
    wo: Seq<int>,
    w4: Seq<int>,
    pi_poly: Seq<int>,
    rc: int,
    lc: int,
    fc: int,
    vc: int,
    d4: Domain,
    i: int,
) -> int {
    let m = domain_size_spec(d4);
    let ni = next_idx(i, m);
    let v = table_gate_values(
        wl,
        wr,
        wo,
        w4,
        vals(pk.mult_selector.evals@),
        vals(pk.left_selector.evals@),
        vals(pk.right_selector.evals@),
        vals(pk.output_selector.evals@),
        vals(pk.fourth_selector.evals@),
        vals(pk.constant_selector.evals@),
        i,
        ni,
    );
    gates_sum_spec(
        v,
        vals(pk.arithmetic_selector.evals@)[i],
        vals(pk.range_selector.evals@)[i],
        vals(pk.logic_selector.evals@)[i],
        vals(pk.fixed_group_add_selector.evals@)[i],
        vals(pk.variable_group_add_selector.evals@)[i],
        poly_eval_at(pi_poly, coset_point(d4, i)),
        rc,
        lc,
        fc,
        vc,
    )
}

/// The permutation term at extended index `i`, over the prover key's
/// tables, the wire and accumulator evaluation tables and the scaled
/// first-Lagrange polynomial `l1`.
pub open spec fn permutation_term_at(
    pk: ProverKey,
    wl: Seq<int>,
    wr: Seq<int>,
    wo: Seq<int>,
    w4: Seq<int>,
    z: Seq<int>,
    alpha: int,
    beta: int,
    gamma: int,
    l1: Seq<int>,
    d4: Domain,
    i: int,
) -> int {
    let m = domain_size_spec(d4);
    let ni = next_idx(i, m);
    perm_quotient_spec(
        vals(pk.linear_evaluations@)[i],
        vals(pk.left_sigma.evals@)[i],
        vals(pk.right_sigma.evals@)[i],
        vals(pk.out_sigma.evals@)[i],
        vals(pk.fourth_sigma.evals@)[i],
        wl[i],
        wr[i],
        wo[i],
        w4[i],
        z[i],
        z[ni],
        alpha,
        poly_eval_at(l1, coset_point(d4, i)),
        beta,
        gamma,
    )
}

/// Build the four-fold extended domain for a base domain.  Fails exactly
/// when the extended size is not available: above the field's two-adicity
/// bound, or not representable on this machine.
pub fn build_extended_domain(domain: &Domain) -> (r: Result<Domain, Error>)
    requires
        is_pow_two(domain_size_spec(*domain)),
    ensures
        r is Ok ==> domain_size_spec(r.unwrap()) == 4 * domain_size_spec(*domain),
        r is Err ==> r == Err::<Domain, Error>(Error::UnsupportedDomainSize) && (4
            * domain_size_spec(*domain) > 0x1_0000_0000 || 4 * domain_size_spec(*domain)
            > usize::MAX),
    {
    let n = domain_size(domain);
    if n > usize::MAX / 4 {
        return Err(Error::UnsupportedDomainSize);
    }
    let m = 4 * n;
    proof {
        let nn = domain_size_spec(*domain);
        assert(nn != 0);
        assert((2 * nn) % 2 == 0 && (2 * nn) / 2 == nn);
        assert(is_pow_two((2 * nn) as nat));
        assert((4 * nn) % 2 == 0 && (4 * nn) / 2 == 2 * nn);
        assert(is_pow_two((4 * nn) as nat));
    }
    match crate::domain::domain_new(m) {
        Some(d4) => Ok(d4),
        None => Err(Error::UnsupportedDomainSize),
    }
}

/// Evaluate the circuit constraint system on the extended coset: entry `i`
/// of the result is the sum of every gate family's quotient term and the
/// public input value at the `i`-th coset point.
pub fn compute_circuit_satisfiability_equation(
    domain: &Domain,
    domain_4n: &Domain,
    range_challenge: &Scalar,
    logic_challenge: &Scalar,
    fixed_base_challenge: &Scalar,
    var_base_challenge: &Scalar,
    prover_key: &ProverKey,
    wl_eval_4n: &Vec<Scalar>,
    wr_eval_4n: &Vec<Scalar>,
    wo_eval_4n: &Vec<Scalar>,
    w4_eval_4n: &Vec<Scalar>,
    pi_poly: &Poly,
) -> (r: Vec<Scalar>)
    requires
        crate::prover_key::prover_key_wf(*prover_key, *domain, *domain_4n),
        wl_eval_4n@.len() == domain_size_spec(*domain_4n),
        wr_eval_4n@.len() == domain_size_spec(*domain_4n),
        wo_eval_4n@.len() == domain_size_spec(*domain_4n),
        w4_eval_4n@.len() == domain_size_spec(*domain_4n),
        pi_poly@.len() <= domain_size_spec(*domain_4n),
    ensures
        r@.len() == domain_size_spec(*domain_4n),
        forall|i: int| 0 <= i < r@.len() ==> fval(#[trigger] r@[i]) == circuit_term_at(
            *prover_key,
            vals(wl_eval_4n@),
            vals(wr_eval_4n@),
            vals(wo_eval_4n@),
            vals(w4_eval_4n@),
            pi_poly@,
            fval(*range_challenge),
            fval(*logic_challenge),
            fval(*fixed_base_challenge),
            fval(*var_base_challenge),
            *domain_4n,
            i,
        ),
{
    let m = domain_size(domain_4n);
    let pi_eval_4n = coset_fft(domain_4n, &pi_poly.coeffs);
    let mut out: Vec<Scalar> = Vec::new();
    let mut i: usize = 0;
    while i < m
        invariant
            i <= m,
            m as nat == domain_size_spec(*domain_4n),
            4 <= m,
            crate::prover_key::prover_key_wf(*prover_key, *domain, *domain_4n),
            wl_eval_4n@.len() == m as nat,
            wr_eval_4n@.len() == m as nat,
            wo_eval_4n@.len() == m as nat,
            w4_eval_4n@.len() == m as nat,
            pi_eval_4n@.len() == m as nat,
            forall|j: int| 0 <= j < m ==> fval(#[trigger] pi_eval_4n@[j]) == poly_eval_at(
                pi_poly@,
                coset_point(*domain_4n, j),
            ),
            out@.len() == i,
            forall|j: int| 0 <= j < i ==> fval(#[trigger] out@[j]) == circuit_term_at(
                *prover_key,
                vals(wl_eval_4n@),
                vals(wr_eval_4n@),
                vals(wo_eval_4n@),
                vals(w4_eval_4n@),
                pi_poly@,
                fval(*range_challenge),
                fval(*logic_challenge),
                fval(*fixed_base_challenge),
                fval(*var_base_challenge),
                *domain_4n,
                j,
            ),
        decreases m - i,
    {
        let ni = next_row_index(i, m);
        let values = GateValues {
            left: fe_copy(&wl_eval_4n[i]),
            right: fe_copy(&wr_eval_4n[i]),
            output: fe_copy(&wo_eval_4n[i]),
            fourth: fe_copy(&w4_eval_4n[i]),
            left_next: fe_copy(&wl_eval_4n[ni]),
            right_next: fe_copy(&wr_eval_4n[ni]),
            fourth_next: fe_copy(&w4_eval_4n[ni]),
            left_selector: fe_copy(&prover_key.left_selector.evals[i]),
            right_selector: fe_copy(&prover_key.right_selector.evals[i]),
            output_selector: fe_copy(&prover_key.output_selector.evals[i]),
            fourth_selector: fe_copy(&prover_key.fourth_selector.evals[i]),
            constant_selector: fe_copy(&prover_key.constant_selector.evals[i]),
            mult_selector: fe_copy(&prover_key.mult_selector.evals[i]),
        };
        proof {
            assert(values@ =~= table_gate_values(
                vals(wl_eval_4n@),
                vals(wr_eval_4n@),
                vals(wo_eval_4n@),
                vals(w4_eval_4n@),
                vals(prover_key.mult_selector.evals@),
                vals(prover_key.left_selector.evals@),
                vals(prover_key.right_selector.evals@),
                vals(prover_key.output_selector.evals@),
                vals(prover_key.fourth_selector.evals@),
                vals(prover_key.constant_selector.evals@),
                i as int,
                ni as int,
            ));
        }
        let arith = Arithmetic::quotient_term(&prover_key.arithmetic_selector.evals[i], &values);
        let range = Range::quotient_term(
            &prover_key.range_selector.evals[i],
            range_challenge,
            &values,
        );
        let logic = Logic::quotient_term(
            &prover_key.logic_selector.evals[i],
            logic_challenge,
            &values,
        );
        let fixed = FixedBaseScalarMul::quotient_term(
            &prover_key.fixed_group_add_selector.evals[i],
            fixed_base_challenge,
            &values,
        );
        let curve = CurveAddition::quotient_term(
            &prover_key.variable_group_add_selector.evals[i],
            var_base_challenge,
            &values,
        );
        let s0 = fe_add(&arith, &pi_eval_4n[i]);
        let s1 = fe_add(&s0, &range);
        let s2 = fe_add(&s1, &logic);
        let s3 = fe_add(&s2, &fixed);
        let s4 = fe_add(&s3, &curve);
        out.push(s4);
        i = i + 1;
    }
    out
}

/// Evaluate the permutation argument on the extended coset: entry `i` of
/// the result is the wiring check at the `i`-th coset point, with the
/// boundary term scaled by `alpha` squared through the first-Lagrange
/// polynomial.
pub fn compute_permutation_checks(
    domain: &Domain,
    domain_4n: &Domain,
    prover_key: &ProverKey,
    wl_eval_4n: &Vec<Scalar>,
    wr_eval_4n: &Vec<Scalar>,
    wo_eval_4n: &Vec<Scalar>,
    w4_eval_4n: &Vec<Scalar>,
    z_eval_4n: &Vec<Scalar>,
    alpha: &Scalar,
    beta: &Scalar,
    gamma: &Scalar,
) -> (r: Vec<Scalar>)
    requires
        crate::prover_key::prover_key_wf(*prover_key, *domain, *domain_4n),
        wl_eval_4n@.len() == domain_size_spec(*domain_4n),
        wr_eval_4n@.len() == domain_size_spec(*domain_4n),
        wo_eval_4n@.len() == domain_size_spec(*domain_4n),
        w4_eval_4n@.len() == domain_size_spec(*domain_4n),
        z_eval_4n@.len() == domain_size_spec(*domain_4n),
    ensures
        r@.len() == domain_size_spec(*domain_4n),
        exists|l1: Seq<int>|
            #[trigger] is_scaled_first_lagrange(
                l1,
                domain_gen_spec(*domain),
                domain_size_spec(*domain),
                mulm(fval(*alpha), fval(*alpha)),
            ) && forall|i: int| 0 <= i < r@.len() ==> fval(#[trigger] r@[i]) == permutation_term_at(
                *prover_key,
                vals(wl_eval_4n@),
                vals(wr_eval_4n@),
                vals(wo_eval_4n@),
                vals(w4_eval_4n@),
                vals(z_eval_4n@),
                fval(*alpha),
                fval(*beta),
                fval(*gamma),
                l1,
                *domain_4n,
                i,
            ),
{
    let m = domain_size(domain_4n);
    let alpha_sq = fe_mul(alpha, alpha);
    let l1_poly = compute_first_lagrange_poly_scaled(domain, &alpha_sq);
    let l1_evals = coset_fft(domain_4n, &l1_poly.coeffs);
    let mut out: Vec<Scalar> = Vec::new();
    let mut i: usize = 0;
    while i < m
        invariant
            i <= m,
            m as nat == domain_size_spec(*domain_4n),
            4 <= m,
            crate::prover_key::prover_key_wf(*prover_key, *domain, *domain_4n),
            wl_eval_4n@.len() == m as nat,
            wr_eval_4n@.len() == m as nat,
            wo_eval_4n@.len() == m as nat,
            w4_eval_4n@.len() == m as nat,
            z_eval_4n@.len() == m as nat,
            l1_evals@.len() == m as nat,
            forall|j: int| 0 <= j < m ==> fval(#[trigger] l1_evals@[j]) == poly_eval_at(
                l1_poly@,
                coset_point(*domain_4n, j),
            ),
            out@.len() == i,
            forall|j: int| 0 <= j < i ==> fval(#[trigger] out@[j]) == permutation_term_at(
                *prover_key,
                vals(wl_eval_4n@),
                vals(wr_eval_4n@),
                vals(wo_eval_4n@),
                vals(w4_eval_4n@),
                vals(z_eval_4n@),
                fval(*alpha),
                fval(*beta),
                fval(*gamma),
                l1_poly@,
                *domain_4n,
                j,
            ),
        decreases m - i,
    {
        let ni = next_row_index(i, m);
        let t = Permutation::compute_quotient_i(
            &prover_key.linear_evaluations[i],
            &prover_key.left_sigma.evals[i],
            &prover_key.right_sigma.evals[i],
            &prover_key.out_sigma.evals[i],
            &prover_key.fourth_sigma.evals[i],
            &wl_eval_4n[i],
            &wr_eval_4n[i],
            &wo_eval_4n[i],
            &w4_eval_4n[i],
            &z_eval_4n[i],
            &z_eval_4n[ni],
            alpha,
            &l1_evals[i],
            beta,
            gamma,
        );
        out.push(t);
        i = i + 1;
    }
    proof {
        assert(is_scaled_first_lagrange(
            l1_poly@,
            domain_gen_spec(*domain),
            domain_size_spec(*domain),
            mulm(fval(*alpha), fval(*alpha)),
        ));
    }
    out
}

/// Compute the quotient polynomial: the full constraint system evaluated
/// on the extended coset, divided pointwise by the vanishing polynomial's
/// values there, and inverse-transformed to coefficient form.
///
/// Returns an error exactly when some vanishing value on the coset is
/// zero, which a correctly chosen coset rules out.  On success, the
/// result times the vanishing value reproduces the constraint-system
/// numerator at every extended coset point.
pub fn compute(
    domain: &Domain,
    domain_4n: &Domain,
    prover_key: &ProverKey,
    z_poly: &Poly,
    w_l_poly: &Poly,
    w_r_poly: &Poly,
    w_o_poly: &Poly,
    w_4_poly: &Poly,
    public_inputs_poly: &Poly,
    alpha: &Scalar,
    beta: &Scalar,
    gamma: &Scalar,
    range_challenge: &Scalar,
    logic_challenge: &Scalar,
    fixed_base_challenge: &Scalar,
    var_base_challenge: &Scalar,
) -> (r: Result<Poly, Error>)
    requires
        crate::prover_key::prover_key_wf(*prover_key, *domain, *domain_4n),
        z_poly@.len() <= domain_size_spec(*domain_4n),
        w_l_poly@.len() <= domain_size_spec(*domain_4n),
        w_r_poly@.len() <= domain_size_spec(*domain_4n),
        w_o_poly@.len() <= domain_size_spec(*domain_4n),
        w_4_poly@.len() <= domain_size_spec(*domain_4n),
        public_inputs_poly@.len() <= domain_size_spec(*domain_4n),
    ensures
        (r is Err) <==> exists|i: int| 0 <= i < domain_size_spec(*domain_4n) && fval(
            #[trigger] prover_key.v_h_coset_evals@[i],
        ) == 0,
        r is Err ==> r == Err::<Poly, Error>(Error::NonInvertibleEvaluation),
        r is Ok ==> r.unwrap()@.len() == domain_size_spec(*domain_4n),
        r is Ok ==> exists|l1: Seq<int>|
            #[trigger] is_scaled_first_lagrange(
                l1,
                domain_gen_spec(*domain),
                domain_size_spec(*domain),
                mulm(fval(*alpha), fval(*alpha)),
            ) && forall|i: int| 0 <= i < domain_size_spec(*domain_4n) ==> mulm(
                poly_eval_at(r.unwrap()@, coset_point(*domain_4n, i)),
                fval(#[trigger] prover_key.v_h_coset_evals@[i]),
            ) == addm(
                circuit_term_at(
                    *prover_key,
                    coset_evals_of(*domain_4n, w_l_poly@),
                    coset_evals_of(*domain_4n, w_r_poly@),
                    coset_evals_of(*domain_4n, w_o_poly@),
                    coset_evals_of(*domain_4n, w_4_poly@),
                    public_inputs_poly@,
                    fval(*range_challenge),
                    fval(*logic_challenge),
                    fval(*fixed_base_challenge),
                    fval(*var_base_challenge),
                    *domain_4n,
                    i,
                ),
                permutation_term_at(
                    *prover_key,
                    coset_evals_of(*domain_4n, w_l_poly@),
                    coset_evals_of(*domain_4n, w_r_poly@),
                    coset_evals_of(*domain_4n, w_o_poly@),
                    coset_evals_of(*domain_4n, w_4_poly@),
                    coset_evals_of(*domain_4n, z_poly@),
                    fval(*alpha),
                    fval(*beta),
                    fval(*gamma),
                    l1,
                    *domain_4n,
                    i,
                ),
            ),
{
    let m = domain_size(domain_4n);
    let z_eval_4n = coset_fft(domain_4n, &z_poly.coeffs);
    let wl_eval_4n = coset_fft(domain_4n, &w_l_poly.coeffs);
    let wr_eval_4n = coset_fft(domain_4n, &w_r_poly.coeffs);
    let wo_eval_4n = coset_fft(domain_4n, &w_o_poly.coeffs);
    let w4_eval_4n = coset_fft(domain_4n, &w_4_poly.coeffs);
    proof {
        lemma_vals_are_coset_evals(*domain_4n, w_l_poly@, vals(wl_eval_4n@));
        lemma_vals_are_coset_evals(*domain_4n, w_r_poly@, vals(wr_eval_4n@));
        lemma_vals_are_coset_evals(*domain_4n, w_o_poly@, vals(wo_eval_4n@));
        lemma_vals_are_coset_evals(*domain_4n, w_4_poly@, vals(w4_eval_4n@));
        lemma_vals_are_coset_evals(*domain_4n, z_poly@, vals(z_eval_4n@));
    }
    let t_1 = compute_circuit_satisfiability_equation(
        domain,
        domain_4n,
        range_challenge,
        logic_challenge,
        fixed_base_challenge,
        var_base_challenge,
        prover_key,
        &wl_eval_4n,
        &wr_eval_4n,
        &wo_eval_4n,
        &w4_eval_4n,
        public_inputs_poly,
    );
    let t_2 = compute_permutation_checks(
        domain,
        domain_4n,
        prover_key,
        &wl_eval_4n,
        &wr_eval_4n,
        &wo_eval_4n,
        &w4_eval_4n,
        &z_eval_4n,
        alpha,
        beta,
        gamma,
    );
    let ghost l1_witness: Seq<int> = choose|l1: Seq<int>|
        #[trigger] is_scaled_first_lagrange(
            l1,
            domain_gen_spec(*domain),
            domain_size_spec(*domain),
            mulm(fval(*alpha), fval(*alpha)),
        ) && forall|i: int| 0 <= i < t_2@.len() ==> fval(#[trigger] t_2@[i]) == permutation_term_at(
            *prover_key,
            vals(wl_eval_4n@),
            vals(wr_eval_4n@),
            vals(wo_eval_4n@),
            vals(w4_eval_4n@),
            vals(z_eval_4n@),
            fval(*alpha),
            fval(*beta),
            fval(*gamma),
            l1,
            *domain_4n,
            i,
        );
    let mut quotient: Vec<Scalar> = Vec::new();
    let mut i: usize = 0;
    while i < m
        invariant
            i <= m,
            m as nat == domain_size_spec(*domain_4n),
            crate::prover_key::prover_key_wf(*prover_key, *domain, *domain_4n),
            t_1@.len() == m as nat,
            t_2@.len() == m as nat,
            quotient@.len() == i,
            forall|j: int| 0 <= j < i ==> fval(#[trigger] prover_key.v_h_coset_evals@[j]) != 0,
            forall|j: int| 0 <= j < i ==> mulm(
                fval(#[trigger] quotient@[j]),
                fval(prover_key.v_h_coset_evals@[j]),
            ) == addm(fval(t_1@[j]), fval(t_2@[j])),
        decreases m - i,
    {
        let numerator = fe_add(&t_1[i], &t_2[i]);
        let denominator = &prover_key.v_h_coset_evals[i];
        let inverse = match fe_inverse(denominator) {
            Some(x) => x,
            None => {
                return Err(Error::NonInvertibleEvaluation);
            },
        };
        let q = fe_mul(&numerator, &inverse);
        proof {
            let nv = fval(numerator);
            let iv = fval(inverse);
            let dv = fval(*denominator);
            lemma_mulm_assoc(nv, iv, dv);
            lemma_mulm_comm(iv, dv);
            lemma_mod_bounds(fval(t_1@[i as int]) + fval(t_2@[i as int]));
            lemma_mulm_one(nv);
        }
        quotient.push(q);
        i = i + 1;
    }
    let q_coeffs = coset_ifft(domain_4n, &quotient);
    let result = Poly { coeffs: q_coeffs };
    proof {
        assert forall|i: int| 0 <= i < m implies mulm(
            poly_eval_at(result@, coset_point(*domain_4n, i)),
            fval(#[trigger] prover_key.v_h_coset_evals@[i]),
        ) == addm(
            circuit_term_at(
                *prover_key,
                vals(wl_eval_4n@),
                vals(wr_eval_4n@),
                vals(wo_eval_4n@),
                vals(w4_eval_4n@),
                public_inputs_poly@,
                fval(*range_challenge),
                fval(*logic_challenge),
                fval(*fixed_base_challenge),
                fval(*var_base_challenge),
                *domain_4n,
                i,
            ),
            permutation_term_at(
                *prover_key,
                vals(wl_eval_4n@),
                vals(wr_eval_4n@),
                vals(wo_eval_4n@),
                vals(w4_eval_4n@),
                vals(z_eval_4n@),
                fval(*alpha),
                fval(*beta),
                fval(*gamma),
                l1_witness,
                *domain_4n,
                i,
            ),
        ) by {
            assert(poly_eval_at(result@, coset_point(*domain_4n, i)) == fval(quotient@[i]));
            assert(fval(t_1@[i]) == circuit_term_at(
                *prover_key,
                vals(wl_eval_4n@),
                vals(wr_eval_4n@),
                vals(wo_eval_4n@),
                vals(w4_eval_4n@),
                public_inputs_poly@,
                fval(*range_challenge),
                fval(*logic_challenge),
                fval(*fixed_base_challenge),
                fval(*var_base_challenge),
                *domain_4n,
                i,
            ));
        }
    }
    Ok(result)
}

/// Law: on a satisfied row the quotient-equation numerator vanishes.
/// If the arithmetic gate equation cancels the public input, every
/// separated gate family's term is zero, and the permutation check is
/// zero, then the whole per-point numerator is exactly zero.
pub proof fn lemma_numerator_zero_when_satisfied(
    v: GateValuesSpec,
    q_arith: int,
    q_range: int,
    q_logic: int,
    q_fixed: int,
    q_var: int,
    pi: int,
    rc: int,
    lc: int,
    fc: int,
    vc: int,
    x: int,
    s1: int,
    s2: int,
    s3: int,
    s4: int,
    z: int,
    z_next: int,
    alpha: int,
    l1: int,
    beta: int,
    gamma: int,
)
    requires
        addm(arith_quotient_spec(q_arith, v), pi) == 0,
        mulm(q_range, range_scalar_spec(rc, v)) == 0,
        mulm(q_logic, logic_scalar_spec(lc, v)) == 0,
        mulm(q_fixed, fixed_base_scalar_spec(fc, v)) == 0,
        mulm(q_var, curve_addition_scalar_spec(vc, v)) == 0,
        perm_quotient_spec(x, s1, s2, s3, s4, v.left, v.right, v.output, v.fourth, z, z_next,
            alpha, l1, beta, gamma) == 0,
    ensures
        addm(
            gates_sum_spec(v, q_arith, q_range, q_logic, q_fixed, q_var, pi, rc, lc, fc, vc),
            perm_quotient_spec(x, s1, s2, s3, s4, v.left, v.right, v.output, v.fourth, z, z_next,
                alpha, l1, beta, gamma),
        ) == 0,
{
    crate::arith::lemma_reduced(0);
    crate::arith::lemma_addm_zero(0);
}

/// Law: the inverse coset FFT undoes the forward coset FFT.  The
/// hypotheses are exactly what the two transforms' contracts state of
/// their results on a full-length coefficient sequence; the conclusion is
/// that the coefficients come back unchanged.
pub proof fn lemma_coset_fft_round_trip(d: Domain, p: Seq<int>, evals: Seq<int>, back: Seq<int>)
    requires
        p.len() == domain_size_spec(d),
        crate::domain::coset_from_evals(d, evals) == p,
        back == crate::domain::coset_from_evals(d, evals),
    ensures
        back == p,
{
}

/// The evaluation values of a polynomial on the extended coset, as a
/// sequence indexed by the coset position.
pub open spec fn coset_evals_of(d4: Domain, p: Seq<int>) -> Seq<int> {
    Seq::new(domain_size_spec(d4), |i: int| poly_eval_at(p, coset_point(d4, i)))
}

/// The values returned by the forward coset FFT form exactly the
/// `coset_evals_of` sequence of the input polynomial.
proof fn lemma_vals_are_coset_evals(d4: Domain, p: Seq<int>, evs: Seq<int>)
    requires
        evs.len() == domain_size_spec(d4),
        forall|i: int| 0 <= i < evs.len() ==> evs[i] == poly_eval_at(p, coset_point(d4, i)),
    ensures
        evs =~= coset_evals_of(d4, p),
{
}

} // verus!
