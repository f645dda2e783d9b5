//! Dense polynomials over the scalar field, in coefficient form.

use vstd::prelude::*;
use crate::field::{Scalar, field_mod, fval, vals, addm, mulm, fe_add, fe_mul, fe_copy, fe_zero, fe_is_zero};
use crate::arith::{lemma_reduced, lemma_mulm_zero, lemma_mulm_comm, lemma_mulm_assoc,
    lemma_mulm_dist, lemma_addm_zero};

verus! {

/// A dense polynomial: `coeffs[i]` is the coefficient of `X^i`.
/// The degree is `coeffs.len() - 1`; trailing zero coefficients are allowed.
pub struct Poly {
    pub coeffs: Vec<Scalar>,
}

impl View for Poly {
    type V = Seq<int>;

    open spec fn view(&self) -> Seq<int> {
        vals(self.coeffs@)
    }
}

/// The value of the polynomial with coefficients `s` at the point `x`,
/// by Horner's rule, reduced modulo the field prime at every step.
pub open spec fn poly_eval_at(s: Seq<int>, x: int) -> int
    decreases s.len(),
{
    if s.len() == 0 {
        0
    } else {
        addm(s[0], mulm(x, poly_eval_at(s.drop_first(), x)))
    }
}

/// Pointwise sum of two coefficient sequences, the shorter padded with zeros.
pub open spec fn poly_add_ints(a: Seq<int>, b: Seq<int>) -> Seq<int> {
    Seq::new(if a.len() < b.len() { b.len() } else { a.len() }, |i: int|
        if i < a.len() && i < b.len() {
            addm(a[i], b[i])
        } else if i < a.len() {
            a[i]
        } else {
            b[i]
        }
    )
}

/// Every coefficient multiplied by the scalar `k`, modulo the prime.
pub open spec fn poly_scale_ints(k: int, s: Seq<int>) -> Seq<int> {
    s.map(|i: int, v: int| mulm(k, v))
}

impl Poly {
    /// The zero polynomial, with no coefficients.
    pub fn zero() -> (r: Poly)
        ensures
            r@ =~= Seq::<int>::empty(),
    {
        Poly { coeffs: Vec::new() }
    }

    /// Evaluate the polynomial at `x` by Horner's rule.
    pub fn evaluate(&self, x: &Scalar) -> (r: Scalar)
        ensures
            fval(r) == poly_eval_at(self@, fval(*x)),
    {
        let ghost s = self@;
        let ghost xv = fval(*x);
        let mut acc = fe_zero();
        let mut i = self.coeffs.len();
        assert(s.skip(i as int) =~= Seq::<int>::empty());
        while i > 0
            invariant
                i <= self.coeffs.len(),
                s == self@,
                xv == fval(*x),
                fval(acc) == poly_eval_at(s.skip(i as int), xv),
            decreases i,
        {
            i = i - 1;
            let t = fe_mul(x, &acc);
            acc = fe_add(&self.coeffs[i], &t);
            proof {
                assert(s.skip(i as int).drop_first() =~= s.skip(i as int + 1));
                assert(s.skip(i as int)[0] == s[i as int]);
                assert(s[i as int] == fval(self.coeffs@[i as int]));
            }
        }
        assert(s.skip(0) =~= s);
        acc
    }

    /// The sum of two polynomials.
    pub fn add_poly(&self, other: &Poly) -> (r: Poly)
        ensures
            r@ =~= poly_add_ints(self@, other@),
    {
        let la = self.coeffs.len();
        let lb = other.coeffs.len();
        let n = if la < lb { lb } else { la };
        let mut out: Vec<Scalar> = Vec::new();
        let mut i: usize = 0;
        while i < n
            invariant
                i <= n,
                la == self.coeffs.len(),
                lb == other.coeffs.len(),
                n == if la < lb { lb as int } else { la as int },
                out.len() == i,
                forall|j: int| 0 <= j < i ==> fval(out@[j]) == poly_add_ints(self@, other@)[j],
            decreases n - i,
        {
            let v = if i < la && i < lb {
                fe_add(&self.coeffs[i], &other.coeffs[i])
            } else if i < la {
                fe_copy(&self.coeffs[i])
            } else {
                fe_copy(&other.coeffs[i])
            };
            out.push(v);
            i = i + 1;
        }
        let r = Poly { coeffs: out };
        assert(r@ =~= poly_add_ints(self@, other@));
        r
    }

    /// The polynomial scaled by the constant `k`.
    pub fn scale(&self, k: &Scalar) -> (r: Poly)
        ensures
            r@ =~= poly_scale_ints(fval(*k), self@),
    {
        let n = self.coeffs.len();
        let mut out: Vec<Scalar> = Vec::new();
        let mut i: usize = 0;
        while i < n
            invariant
                i <= n,
                n == self.coeffs.len(),
                out.len() == i,
                forall|j: int| 0 <= j < i ==> fval(out@[j]) == mulm(fval(*k), self@[j]),
            decreases n - i,
        {
            out.push(fe_mul(k, &self.coeffs[i]));
            i = i + 1;
        }
        let r = Poly { coeffs: out };
        assert(r@ =~= poly_scale_ints(fval(*k), self@));
        r
    }
}

impl Poly {
    /// Whether every coefficient above index `k` is zero.  A caller uses
    /// this as the defensive degree check on a freshly computed quotient
    /// polynomial: an inexact division shows up as excess degree.
    pub fn degree_within(&self, k: usize) -> (r: bool)
        ensures
            r <==> (forall|j: int| k < j < self@.len() ==> #[trigger] self@[j] == 0),
    {
        let n = self.coeffs.len();
        let mut i: usize = if k >= n {
            n
        } else {
            k + 1
        };
        while i < n
            invariant
                k < i <= n || (k >= n && i == n),
                n == self.coeffs.len(),
                forall|j: int| k < j < i ==> #[trigger] self@[j] == 0,
            decreases n - i,
        {
            if !fe_is_zero(&self.coeffs[i]) {
                proof {
                    assert(self@[i as int] != 0);
                }
                return false;
            }
            i = i + 1;
        }
        true
    }
}

/// Evaluating a sum of polynomials gives the modular sum of the evaluations.
pub proof fn lemma_eval_add(a: Seq<int>, b: Seq<int>, x: int)
    ensures
        poly_eval_at(poly_add_ints(a, b), x) == addm(poly_eval_at(a, x), poly_eval_at(b, x)),
    decreases a.len() + b.len(),
{
    let s = poly_add_ints(a, b);
    if a.len() == 0 && b.len() == 0 {
        assert(s =~= Seq::<int>::empty());
        lemma_reduced(0);
    } else if a.len() == 0 {
        assert(s =~= b);
        if b.len() > 0 {
            lemma_addm_zero(poly_eval_at(b, x));
        } else {
            lemma_reduced(0);
        }
    } else if b.len() == 0 {
        assert(s =~= a);
        lemma_addm_zero(poly_eval_at(a, x));
    } else {
        let a1 = a.drop_first();
        let b1 = b.drop_first();
        lemma_eval_add(a1, b1, x);
        assert(s.drop_first() =~= poly_add_ints(a1, b1));
        let ea = poly_eval_at(a1, x);
        let eb = poly_eval_at(b1, x);
        lemma_mulm_dist(x, ea, eb);
        // both sides reduce to (a[0] + b[0] + x*ea + x*eb) mod the prime
        vstd::arithmetic::div_mod::lemma_add_mod_noop(
            a[0] + b[0], mulm(x, ea) + mulm(x, eb), field_mod());
        vstd::arithmetic::div_mod::lemma_add_mod_noop(
            a[0] + mulm(x, ea), b[0] + mulm(x, eb), field_mod());
        vstd::arithmetic::div_mod::lemma_add_mod_noop_right(
            a[0] + b[0], mulm(x, ea) + mulm(x, eb), field_mod());
        vstd::arithmetic::div_mod::lemma_add_mod_noop_right(
            a[0], mulm(x, ea), field_mod());
        vstd::arithmetic::div_mod::lemma_add_mod_noop_right(
            b[0], mulm(x, eb), field_mod());
        assert(poly_eval_at(s, x) == addm(poly_eval_at(a, x), poly_eval_at(b, x)));
    }
}

/// Evaluating a scaled polynomial gives the scaled evaluation.
pub proof fn lemma_eval_scale(k: int, s: Seq<int>, x: int)
    ensures
        poly_eval_at(poly_scale_ints(k, s), x) == mulm(k, poly_eval_at(s, x)),
    decreases s.len(),
{
    let m = poly_scale_ints(k, s);
    if s.len() == 0 {
        assert(m =~= Seq::<int>::empty());
        lemma_mulm_zero(k);
    } else {
        let s1 = s.drop_first();
        lemma_eval_scale(k, s1, x);
        assert(m.drop_first() =~= poly_scale_ints(k, s1));
        let e1 = poly_eval_at(s1, x);
        lemma_mulm_dist(k, s[0], mulm(x, e1));
        lemma_mulm_assoc(x, k, e1);
        lemma_mulm_comm(x, k);
        lemma_mulm_assoc(k, x, e1);
        assert(poly_eval_at(m, x) == mulm(k, poly_eval_at(s, x)));
    }
}

} // verus!
