//! The prover key: selector and sigma polynomials in coefficient form,
//! each paired with its precomputed evaluation table on the coset of the
//! four-fold extended domain, plus the identity permutation's and the
//! vanishing polynomial's tables on the same coset.

use vstd::prelude::*;
use crate::field::{Scalar, field_mod, fval, vals, fe_zero, fe_neg, fe_copy};
use crate::arith::lemma_reduced;
use crate::poly::{Poly, poly_eval_at};
use crate::domain::{Domain, domain_size, domain_size_spec, coset_point, coset_fft};
use crate::widget::small_scalar;

verus! {

/// A polynomial in coefficient form together with its evaluations on the
/// coset of the extended domain.
pub struct SelectorPair {
    pub poly: Poly,
    pub evals: Vec<Scalar>,
}

/// The pair's table has one entry per extended-coset point, and entry `i`
/// is the polynomial's value at the `i`-th coset point.
pub open spec fn pair_wf(p: SelectorPair, d4: Domain) -> bool {
    &&& p.evals@.len() == domain_size_spec(d4)
    &&& forall|i: int| 0 <= i < p.evals@.len() ==> fval(#[trigger] p.evals@[i]) == poly_eval_at(
        p.poly@,
        coset_point(d4, i),
    )
}

/// The coefficients of the vanishing polynomial `X^n - 1` of a domain of
/// size `n`.
pub open spec fn vanishing_coeffs(n: nat) -> Seq<int> {
    Seq::new((n + 1) as nat, |i: int|
        if i == 0 {
            field_mod() - 1
        } else if i == n {
            1
        } else {
            0
        }
    )
}

/// The read-only key of the prover: the six gate selectors, the four
/// family selectors, the four sigma polynomials of the permutation, the
/// identity permutation's coset table, and the vanishing polynomial's
/// coset table.
pub struct ProverKey {
    pub mult_selector: SelectorPair,
    pub left_selector: SelectorPair,
    pub right_selector: SelectorPair,
    pub output_selector: SelectorPair,
    pub fourth_selector: SelectorPair,
    pub constant_selector: SelectorPair,
    pub arithmetic_selector: SelectorPair,
    pub range_selector: SelectorPair,
    pub logic_selector: SelectorPair,
    pub fixed_group_add_selector: SelectorPair,
    pub variable_group_add_selector: SelectorPair,
    pub left_sigma: SelectorPair,
    pub right_sigma: SelectorPair,
    pub out_sigma: SelectorPair,
    pub fourth_sigma: SelectorPair,
    pub linear_evaluations: Vec<Scalar>,
    pub v_h_coset_evals: Vec<Scalar>,
}

/// Well-formedness of a prover key against the base domain and the
/// four-fold extended domain: every table belongs to its polynomial, the
/// identity table holds the coset points themselves, and the vanishing
/// table holds the vanishing polynomial's coset values.
pub open spec fn prover_key_wf(pk: ProverKey, d: Domain, d4: Domain) -> bool {
    &&& 1 <= domain_size_spec(d)
    &&& domain_size_spec(d4) == 4 * domain_size_spec(d)
    &&& pair_wf(pk.mult_selector, d4)
    &&& pair_wf(pk.left_selector, d4)
    &&& pair_wf(pk.right_selector, d4)
    &&& pair_wf(pk.output_selector, d4)
    &&& pair_wf(pk.fourth_selector, d4)
    &&& pair_wf(pk.constant_selector, d4)
    &&& pair_wf(pk.arithmetic_selector, d4)
    &&& pair_wf(pk.range_selector, d4)
    &&& pair_wf(pk.logic_selector, d4)
    &&& pair_wf(pk.fixed_group_add_selector, d4)
    &&& pair_wf(pk.variable_group_add_selector, d4)
    &&& pair_wf(pk.left_sigma, d4)
    &&& pair_wf(pk.right_sigma, d4)
    &&& pair_wf(pk.out_sigma, d4)
    &&& pair_wf(pk.fourth_sigma, d4)
    &&& pk.linear_evaluations@.len() == domain_size_spec(d4)
    &&& forall|i: int| 0 <= i < pk.linear_evaluations@.len() ==> fval(
        #[trigger] pk.linear_evaluations@[i],
    ) == coset_point(d4, i)
    &&& pk.v_h_coset_evals@.len() == domain_size_spec(d4)
    &&& forall|i: int| 0 <= i < pk.v_h_coset_evals@.len() ==> fval(
        #[trigger] pk.v_h_coset_evals@[i],
    ) == poly_eval_at(vanishing_coeffs(domain_size_spec(d)), coset_point(d4, i))
}

/// Build a selector pair by evaluating the polynomial on the extended
/// coset.
pub fn make_selector_pair(d4: &Domain, poly: Poly) -> (r: SelectorPair)
    requires
        poly@.len() <= domain_size_spec(*d4),
    ensures
        pair_wf(r, *d4),
        r.poly@ == poly@,
{
    let evals = coset_fft(d4, &poly.coeffs);
    SelectorPair { poly, evals }
}

/// The identity permutation's coset table: the evaluations of the
/// polynomial `X` on the extended coset, which are the coset points.
pub fn make_linear_evaluations(d4: &Domain) -> (r: Vec<Scalar>)
    requires
        2 <= domain_size_spec(*d4),
    ensures
        r@.len() == domain_size_spec(*d4),
        forall|i: int| 0 <= i < r@.len() ==> fval(#[trigger] r@[i]) == coset_point(*d4, i),
{
    let mut x_coeffs: Vec<Scalar> = Vec::new();
    x_coeffs.push(fe_zero());
    x_coeffs.push(small_scalar(1));
    let r = coset_fft(d4, &x_coeffs);
    proof {
        let xs = vals(x_coeffs@);
        assert forall|i: int| 0 <= i < r@.len() implies fval(#[trigger] r@[i]) == coset_point(
            *d4,
            i,
        ) by {
            let pt = coset_point(*d4, i);
            assert(xs.len() == 2);
            assert(xs[0] == 0 && xs[1] == 1);
            let tail = xs.drop_first();
            assert(tail =~= seq![1int]);
            assert(tail.drop_first() =~= Seq::<int>::empty());
            assert(poly_eval_at(tail.drop_first(), pt) == 0);
            assert(poly_eval_at(tail, pt) == crate::field::addm(1, crate::field::mulm(pt, 0)));
            crate::arith::lemma_mulm_zero(pt);
            crate::arith::lemma_addm_zero(1);
            assert(poly_eval_at(tail, pt) == 1);
            assert(poly_eval_at(xs, pt) == crate::field::addm(0, crate::field::mulm(pt, 1)));
            assert(0 <= pt < field_mod());
            crate::arith::lemma_mulm_one(pt);
            crate::arith::lemma_addm_zero(pt);
        }
    }
    r
}

impl ProverKey {
    /// Build a well-formed prover key from the selector and sigma
    /// polynomials alone, computing every extended-coset table.
    pub fn from_polys(
        d: &Domain,
        d4: &Domain,
        q_m: Poly,
        q_l: Poly,
        q_r: Poly,
        q_o: Poly,
        q_4: Poly,
        q_c: Poly,
        q_arith: Poly,
        q_range: Poly,
        q_logic: Poly,
        q_fixed: Poly,
        q_var: Poly,
        left_sigma: Poly,
        right_sigma: Poly,
        out_sigma: Poly,
        fourth_sigma: Poly,
    ) -> (r: ProverKey)
        requires
            1 <= domain_size_spec(*d),
            domain_size_spec(*d4) == 4 * domain_size_spec(*d),
            q_m@.len() <= domain_size_spec(*d4),
            q_l@.len() <= domain_size_spec(*d4),
            q_r@.len() <= domain_size_spec(*d4),
            q_o@.len() <= domain_size_spec(*d4),
            q_4@.len() <= domain_size_spec(*d4),
            q_c@.len() <= domain_size_spec(*d4),
            q_arith@.len() <= domain_size_spec(*d4),
            q_range@.len() <= domain_size_spec(*d4),
            q_logic@.len() <= domain_size_spec(*d4),
            q_fixed@.len() <= domain_size_spec(*d4),
            q_var@.len() <= domain_size_spec(*d4),
            left_sigma@.len() <= domain_size_spec(*d4),
            right_sigma@.len() <= domain_size_spec(*d4),
            out_sigma@.len() <= domain_size_spec(*d4),
            fourth_sigma@.len() <= domain_size_spec(*d4),
        ensures
            prover_key_wf(r, *d, *d4),
            r.mult_selector.poly@ == q_m@,
            r.left_selector.poly@ == q_l@,
            r.right_selector.poly@ == q_r@,
            r.output_selector.poly@ == q_o@,
            r.fourth_selector.poly@ == q_4@,
            r.constant_selector.poly@ == q_c@,
            r.arithmetic_selector.poly@ == q_arith@,
            r.range_selector.poly@ == q_range@,
            r.logic_selector.poly@ == q_logic@,
            r.fixed_group_add_selector.poly@ == q_fixed@,
            r.variable_group_add_selector.poly@ == q_var@,
            r.left_sigma.poly@ == left_sigma@,
            r.right_sigma.poly@ == right_sigma@,
            r.out_sigma.poly@ == out_sigma@,
            r.fourth_sigma.poly@ == fourth_sigma@,
    {
        let linear_evaluations = make_linear_evaluations(d4);
        let v_h_coset_evals = make_vanishing_evals(d, d4);
        ProverKey {
            mult_selector: make_selector_pair(d4, q_m),
            left_selector: make_selector_pair(d4, q_l),
            right_selector: make_selector_pair(d4, q_r),
            output_selector: make_selector_pair(d4, q_o),
            fourth_selector: make_selector_pair(d4, q_4),
            constant_selector: make_selector_pair(d4, q_c),
            arithmetic_selector: make_selector_pair(d4, q_arith),
            range_selector: make_selector_pair(d4, q_range),
            logic_selector: make_selector_pair(d4, q_logic),
            fixed_group_add_selector: make_selector_pair(d4, q_fixed),
            variable_group_add_selector: make_selector_pair(d4, q_var),
            left_sigma: make_selector_pair(d4, left_sigma),
            right_sigma: make_selector_pair(d4, right_sigma),
            out_sigma: make_selector_pair(d4, out_sigma),
            fourth_sigma: make_selector_pair(d4, fourth_sigma),
            linear_evaluations,
            v_h_coset_evals,
        }
    }
}

/// The vanishing polynomial's coset table: the evaluations of `X^n - 1`
/// on the extended coset.
pub fn make_vanishing_evals(d: &Domain, d4: &Domain) -> (r: Vec<Scalar>)
    requires
        1 <= domain_size_spec(*d),
        domain_size_spec(*d4) == 4 * domain_size_spec(*d),
    ensures
        r@.len() == domain_size_spec(*d4),
        forall|i: int| 0 <= i < r@.len() ==> fval(#[trigger] r@[i]) == poly_eval_at(
            vanishing_coeffs(domain_size_spec(*d)),
            coset_point(*d4, i),
        ),
{
    let n = domain_size(d);
    let n4 = domain_size(d4);
    let one = small_scalar(1);
    let minus_one = fe_neg(&one);
    proof {
        lemma_reduced(1);
        vstd::arithmetic::div_mod::lemma_mod_add_multiples_vanish(-1, field_mod());
        lemma_reduced(field_mod() - 1);
    }
    let mut coeffs: Vec<Scalar> = Vec::new();
    coeffs.push(minus_one);
    let mut i: usize = 1;
    while i < n
        invariant
            1 <= i <= n,
            n as nat == domain_size_spec(*d),
            coeffs@.len() == i,
            fval(coeffs@[0]) == field_mod() - 1,
            forall|j: int| 1 <= j < i ==> fval(#[trigger] coeffs@[j]) == 0,
        decreases n - i,
    {
        coeffs.push(fe_zero());
        i = i + 1;
    }
    coeffs.push(fe_copy(&one));
    let r = coset_fft(d4, &coeffs);
    proof {
        assert(vals(coeffs@) =~= vanishing_coeffs(domain_size_spec(*d)));
    }
    r
}

} // verus!
