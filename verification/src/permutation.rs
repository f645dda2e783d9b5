//! The copy-constraint (wiring) argument: its per-point quotient
//! contribution and its linearisation contribution.
//!
//! The grand-product accumulator `z` must step by the ratio of the wire
//! tuple priced at the identity ordering to the tuple priced at the sigma
//! ordering, and must start at one; the first check is the difference of
//! the two products, the second the first-Lagrange boundary term.

use vstd::prelude::*;
use crate::field::{Scalar, fval, addm, subm, mulm, fe_add, fe_sub, fe_mul, fe_copy, fe_zero};
use crate::arith::{lemma_subm_self, lemma_addm_zero, lemma_mod_bounds};
use crate::poly::{Poly, poly_eval_at, poly_add_ints, poly_scale_ints};
use crate::domain::{Domain, domain_size, domain_size_spec, domain_gen_spec, ifft, pow_m};
use crate::widget::small_scalar;

verus! {

/// The first coset constant separating the second wire's identity ordering.
pub open spec fn k1() -> int {
    7
}

/// The second coset constant, for the third wire.
pub open spec fn k2() -> int {
    13
}

/// The third coset constant, for the fourth wire.
pub open spec fn k3() -> int {
    17
}

/// The permutation argument's full per-point check:
/// `alpha (prod_identity z - prod_sigma z_next) + (z - 1) l1`,
/// where `l1` is the already-scaled first-Lagrange value and each product
/// prices the four wires at `beta` times their position plus `gamma`.
pub open spec fn perm_quotient_spec(
    x: int,
    s1: int,
    s2: int,
    s3: int,
    s4: int,
    a: int,
    b: int,
    c: int,
    d: int,
    z: int,
    z_next: int,
    alpha: int,
    l1: int,
    beta: int,
    gamma: int,
) -> int {
    let t1 = addm(addm(a, mulm(beta, x)), gamma);
    let t2 = addm(addm(b, mulm(beta, mulm(k1(), x))), gamma);
    let t3 = addm(addm(c, mulm(beta, mulm(k2(), x))), gamma);
    let t4 = addm(addm(d, mulm(beta, mulm(k3(), x))), gamma);
    let u1 = addm(addm(a, mulm(beta, s1)), gamma);
    let u2 = addm(addm(b, mulm(beta, s2)), gamma);
    let u3 = addm(addm(c, mulm(beta, s3)), gamma);
    let u4 = addm(addm(d, mulm(beta, s4)), gamma);
    let prod_id = mulm(mulm(mulm(mulm(mulm(t1, t2), t3), t4), z), alpha);
    let prod_sigma = mulm(mulm(mulm(mulm(mulm(u1, u2), u3), u4), z_next), alpha);
    let boundary = mulm(subm(z, 1), l1);
    addm(subm(prod_id, prod_sigma), boundary)
}

/// Whether `l1` is the coefficient form of a polynomial of length `n` that
/// takes the value `s` at the first domain point and zero at the others.
pub open spec fn is_scaled_first_lagrange(l1: Seq<int>, gen: int, n: nat, s: int) -> bool {
    &&& l1.len() == n
    &&& forall|j: int| 0 <= j < n ==> #[trigger] poly_eval_at(l1, pow_m(gen, j as nat)) == if j
        == 0 {
        s
    } else {
        0
    }
}

/// The coefficients of the permutation argument's linearisation
/// contribution: the accumulator polynomial scaled by the identity-side
/// product plus the boundary scalar, and the fourth sigma polynomial
/// scaled by the negated sigma-side product.
pub open spec fn perm_lin_spec(
    zv: int,
    s1: int,
    s2: int,
    s3: int,
    a: int,
    b: int,
    c: int,
    d: int,
    z_next: int,
    alpha: int,
    l1_z: int,
    beta: int,
    gamma: int,
    z_coeffs: Seq<int>,
    fourth_sigma: Seq<int>,
) -> Seq<int> {
    let t1 = addm(addm(a, mulm(beta, zv)), gamma);
    let t2 = addm(addm(b, mulm(beta, mulm(k1(), zv))), gamma);
    let t3 = addm(addm(c, mulm(beta, mulm(k2(), zv))), gamma);
    let t4 = addm(addm(d, mulm(beta, mulm(k3(), zv))), gamma);
    let acc_scale = mulm(mulm(mulm(mulm(t1, t2), t3), t4), alpha);
    let u1 = addm(addm(a, mulm(beta, s1)), gamma);
    let u2 = addm(addm(b, mulm(beta, s2)), gamma);
    let u3 = addm(addm(c, mulm(beta, s3)), gamma);
    let sig_scale = subm(0, mulm(mulm(mulm(mulm(mulm(u1, u2), u3), alpha), beta), z_next));
    let boundary = mulm(l1_z, mulm(alpha, alpha));
    poly_add_ints(
        poly_scale_ints(addm(acc_scale, boundary), z_coeffs),
        poly_scale_ints(sig_scale, fourth_sigma),
    )
}

/// The permutation argument.
pub struct Permutation;

impl Permutation {
    /// The permutation argument's contribution to the quotient numerator
    /// at one evaluation point.  `x` is the identity permutation's value
    /// at the point, `s1..s4` the four sigma polynomials' values there,
    /// and `l1` the already-`alpha^2`-scaled first-Lagrange value.
    pub fn compute_quotient_i(
        x: &Scalar,
        s1: &Scalar,
        s2: &Scalar,
        s3: &Scalar,
        s4: &Scalar,
        w_l: &Scalar,
        w_r: &Scalar,
        w_o: &Scalar,
        w_4: &Scalar,
        z_i: &Scalar,
        z_i_next: &Scalar,
        alpha: &Scalar,
        l1_i: &Scalar,
        beta: &Scalar,
        gamma: &Scalar,
    ) -> (r: Scalar)
        ensures
            fval(r) == perm_quotient_spec(
                fval(*x),
                fval(*s1),
                fval(*s2),
                fval(*s3),
                fval(*s4),
                fval(*w_l),
                fval(*w_r),
                fval(*w_o),
                fval(*w_4),
                fval(*z_i),
                fval(*z_i_next),
                fval(*alpha),
                fval(*l1_i),
                fval(*beta),
                fval(*gamma),
            ),
    {
        let one = small_scalar(1);
        let c1 = small_scalar(7);
        let c2 = small_scalar(13);
        let c3 = small_scalar(17);
        let t1 = fe_add(&fe_add(w_l, &fe_mul(beta, x)), gamma);
        let t2 = fe_add(&fe_add(w_r, &fe_mul(beta, &fe_mul(&c1, x))), gamma);
        let t3 = fe_add(&fe_add(w_o, &fe_mul(beta, &fe_mul(&c2, x))), gamma);
        let t4 = fe_add(&fe_add(w_4, &fe_mul(beta, &fe_mul(&c3, x))), gamma);
        let u1 = fe_add(&fe_add(w_l, &fe_mul(beta, s1)), gamma);
        let u2 = fe_add(&fe_add(w_r, &fe_mul(beta, s2)), gamma);
        let u3 = fe_add(&fe_add(w_o, &fe_mul(beta, s3)), gamma);
        let u4 = fe_add(&fe_add(w_4, &fe_mul(beta, s4)), gamma);
        let prod_id = fe_mul(&fe_mul(&fe_mul(&fe_mul(&fe_mul(&t1, &t2), &t3), &t4), z_i), alpha);
        let prod_sigma = fe_mul(
            &fe_mul(&fe_mul(&fe_mul(&fe_mul(&u1, &u2), &u3), &u4), z_i_next),
            alpha,
        );
        let boundary = fe_mul(&fe_sub(z_i, &one), l1_i);
        fe_add(&fe_sub(&prod_id, &prod_sigma), &boundary)
    }

    /// The permutation argument's linearisation contribution at the
    /// challenge point `z_challenge`, over the accumulator polynomial and
    /// the fourth sigma polynomial.
    pub fn compute_linearisation(
        domain: &Domain,
        z_challenge: &Scalar,
        alpha: &Scalar,
        beta: &Scalar,
        gamma: &Scalar,
        a_eval: &Scalar,
        b_eval: &Scalar,
        c_eval: &Scalar,
        d_eval: &Scalar,
        left_sigma_eval: &Scalar,
        right_sigma_eval: &Scalar,
        out_sigma_eval: &Scalar,
        perm_eval: &Scalar,
        fourth_sigma_poly: &Poly,
        z_poly: &Poly,
    ) -> (r: Poly)
        ensures
            exists|l1: Seq<int>|
                #[trigger] is_scaled_first_lagrange(
                    l1,
                    domain_gen_spec(*domain),
                    domain_size_spec(*domain),
                    1,
                ) && r@ =~= perm_lin_spec(
                    fval(*z_challenge),
                    fval(*left_sigma_eval),
                    fval(*right_sigma_eval),
                    fval(*out_sigma_eval),
                    fval(*a_eval),
                    fval(*b_eval),
                    fval(*c_eval),
                    fval(*d_eval),
                    fval(*perm_eval),
                    fval(*alpha),
                    poly_eval_at(l1, fval(*z_challenge)),
                    fval(*beta),
                    fval(*gamma),
                    z_poly@,
                    fourth_sigma_poly@,
                ),
    {
        let one = small_scalar(1);
        let c1 = small_scalar(7);
        let c2 = small_scalar(13);
        let c3 = small_scalar(17);
        let t1 = fe_add(&fe_add(a_eval, &fe_mul(beta, z_challenge)), gamma);
        let t2 = fe_add(&fe_add(b_eval, &fe_mul(beta, &fe_mul(&c1, z_challenge))), gamma);
        let t3 = fe_add(&fe_add(c_eval, &fe_mul(beta, &fe_mul(&c2, z_challenge))), gamma);
        let t4 = fe_add(&fe_add(d_eval, &fe_mul(beta, &fe_mul(&c3, z_challenge))), gamma);
        let acc_scale = fe_mul(&fe_mul(&fe_mul(&fe_mul(&t1, &t2), &t3), &t4), alpha);
        let u1 = fe_add(&fe_add(a_eval, &fe_mul(beta, left_sigma_eval)), gamma);
        let u2 = fe_add(&fe_add(b_eval, &fe_mul(beta, right_sigma_eval)), gamma);
        let u3 = fe_add(&fe_add(c_eval, &fe_mul(beta, out_sigma_eval)), gamma);
        let sig_prod = fe_mul(&fe_mul(&fe_mul(&fe_mul(&fe_mul(&u1, &u2), &u3), alpha), beta), perm_eval);
        let zero = fe_zero();
        let sig_scale = fe_sub(&zero, &sig_prod);
        let l1_poly = compute_first_lagrange_poly_scaled(domain, &one);
        let l1_z = l1_poly.evaluate(z_challenge);
        let boundary = fe_mul(&l1_z, &fe_mul(alpha, alpha));
        let part_acc = z_poly.scale(&fe_add(&acc_scale, &boundary));
        let part_sigma = fourth_sigma_poly.scale(&sig_scale);
        let r = part_acc.add_poly(&part_sigma);
        proof {
            assert(is_scaled_first_lagrange(
                l1_poly@,
                domain_gen_spec(*domain),
                domain_size_spec(*domain),
                1,
            ));
        }
        r
    }
}

/// The polynomial that takes the value `scale` at the first point of the
/// domain and zero at every other point.
pub fn compute_first_lagrange_poly_scaled(domain: &Domain, scale: &Scalar) -> (r: Poly)
    ensures
        is_scaled_first_lagrange(
            r@,
            domain_gen_spec(*domain),
            domain_size_spec(*domain),
            fval(*scale),
        ),
{
    let n = domain_size(domain);
    let mut evals: Vec<Scalar> = Vec::new();
    let mut i: usize = 0;
    while i < n
        invariant
            i <= n,
            evals.len() == i,
            forall|j: int| 0 <= j < i ==> fval(evals@[j]) == if j == 0 {
                fval(*scale)
            } else {
                0
            },
        decreases n - i,
    {
        if i == 0 {
            evals.push(fe_copy(scale));
        } else {
            evals.push(fe_zero());
        }
        i = i + 1;
    }
    let coeffs = ifft(domain, &evals);
    proof {
        let gen = domain_gen_spec(*domain);
        let nn = domain_size_spec(*domain);
        assert forall|j: int| 0 <= j < nn implies #[trigger] poly_eval_at(
            crate::field::vals(coeffs@),
            pow_m(gen, j as nat),
        ) == if j == 0 {
            fval(*scale)
        } else {
            0
        } by {
            assert(fval(evals@[j]) == if j == 0 {
                fval(*scale)
            } else {
                0
            });
        }
    }
    Poly { coeffs }
}

/// Law: with trivially-distinct wiring, where each sigma value equals the
/// identity ordering's value for its wire and the accumulator does not
/// move, the permutation check reduces to the first-Lagrange boundary
/// term alone.
pub proof fn lemma_identity_wiring_reduces_to_boundary(
    x: int,
    s1: int,
    s2: int,
    s3: int,
    s4: int,
    a: int,
    b: int,
    c: int,
    d: int,
    z: int,
    z_next: int,
    alpha: int,
    l1: int,
    beta: int,
    gamma: int,
)
    requires
        s1 == x,
        s2 == mulm(k1(), x),
        s3 == mulm(k2(), x),
        s4 == mulm(k3(), x),
        z_next == z,
    ensures
        perm_quotient_spec(x, s1, s2, s3, s4, a, b, c, d, z, z_next, alpha, l1, beta, gamma)
            == mulm(subm(z, 1), l1),
{
    let t1 = addm(addm(a, mulm(beta, x)), gamma);
    let t2 = addm(addm(b, mulm(beta, mulm(k1(), x))), gamma);
    let t3 = addm(addm(c, mulm(beta, mulm(k2(), x))), gamma);
    let t4 = addm(addm(d, mulm(beta, mulm(k3(), x))), gamma);
    let prod = mulm(mulm(mulm(mulm(mulm(t1, t2), t3), t4), z), alpha);
    lemma_subm_self(prod);
    lemma_mod_bounds((z - 1) * l1);
    lemma_addm_zero(mulm(subm(z, 1), l1));
}

} // verus!
