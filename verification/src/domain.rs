//! Radix-2 evaluation domains of the scalar field, behind trusted wrappers.
//!
//! A domain of size `n` is the subgroup of `n`-th roots of unity generated
//! by `domain_gen_spec`.  Its coset, offset by the field's multiplicative
//! generator `7`, consists of the points `coset_point(d, i)`.  The forward
//! and inverse (coset) FFTs of `ark_poly` convert between coefficients and
//! the evaluations on those points.

use vstd::prelude::*;
use ark_bls12_381::Fr;
use ark_ff::FftField;
use ark_poly::EvaluationDomain;
use ark_poly::GeneralEvaluationDomain;
use crate::field::{Scalar, fval, vals, mulm};
use crate::poly::poly_eval_at;

verus! {

/// A multiplicative subgroup domain of power-of-two size.  The inner
/// `ark_poly` value is opaque here; contracts speak of its size, its
/// generator and its (coset) evaluation points only.
#[verifier::external_body]
pub struct Domain {
    inner: GeneralEvaluationDomain<Fr>,
}

/// The number of points of the domain.
pub uninterp spec fn domain_size_spec(d: Domain) -> nat;

/// The value of the domain's group generator, a primitive root of unity
/// of the domain's order.
pub uninterp spec fn domain_gen_spec(d: Domain) -> int;

/// What the inverse coset FFT over this domain returns on a sequence of
/// evaluation values.
pub uninterp spec fn coset_from_evals(d: Domain, evals: Seq<int>) -> Seq<int>;

/// `b` to the power `e`, modulo the field prime.
pub open spec fn pow_m(b: int, e: nat) -> int
    decreases e,
{
    if e == 0 {
        1
    } else {
        mulm(b, pow_m(b, (e - 1) as nat))
    }
}

/// Whether `n` is a power of two.
pub open spec fn is_pow_two(n: nat) -> bool
    decreases n,
{
    if n == 0 {
        false
    } else if n == 1 {
        true
    } else {
        n % 2 == 0 && is_pow_two(n / 2)
    }
}

/// The `i`-th point of the domain's coset: the multiplicative generator `7`
/// of the field times the `i`-th power of the domain generator.
pub open spec fn coset_point(d: Domain, i: int) -> int {
    mulm(7, pow_m(domain_gen_spec(d), i as nat))
}

/// Relies on `ark_poly::Radix2EvaluationDomain::new`: for a power-of-two
/// request it returns a domain of exactly that size, and it succeeds
/// exactly up to the two-adicity of the field (`2^32` for BLS12-381).
#[verifier::external_body]
pub fn domain_new(n: usize) -> (r: Option<Domain>)
    ensures
        is_pow_two(n as nat) ==> (r.is_some() <==> n <= 0x1_0000_0000),
        is_pow_two(n as nat) && r.is_some() ==> domain_size_spec(r.unwrap()) == n as nat,
        r.is_some() ==> 1 <= domain_size_spec(r.unwrap()) <= 0x1_0000_0000,
{
    ark_poly::Radix2EvaluationDomain::new(n).map(
        |d| Domain { inner: GeneralEvaluationDomain::Radix2(d) },
    )
}

/// Relies on `ark_poly::EvaluationDomain::size`.
#[verifier::external_body]
pub fn domain_size(d: &Domain) -> (r: usize)
    ensures
        r as nat == domain_size_spec(*d),
{
    d.inner.size()
}

/// Relies on `ark_poly::EvaluationDomain::group_gen`.
#[verifier::external_body]
pub fn domain_group_gen(d: &Domain) -> (r: Scalar)
    ensures
        fval(r) == domain_gen_spec(*d),
{
    Scalar { inner: d.inner.group_gen() }
}

/// Relies on `ark_poly`'s forward FFT over the coset of the domain
/// (`get_coset` with the field's multiplicative generator, then `fft`):
/// entry `i` of the result is the input polynomial evaluated at the `i`-th
/// coset point, and on a full-length input the inverse coset FFT returns
/// the input back.
#[verifier::external_body]
pub fn coset_fft(d: &Domain, coeffs: &Vec<Scalar>) -> (r: Vec<Scalar>)
    requires
        coeffs@.len() <= domain_size_spec(*d),
    ensures
        r@.len() == domain_size_spec(*d),
        forall|i: int| 0 <= i < r@.len()
            ==> fval(r@[i]) == poly_eval_at(vals(coeffs@), coset_point(*d, i)),
        coeffs@.len() == domain_size_spec(*d) ==> coset_from_evals(*d, vals(r@)) == vals(
            coeffs@,
        ),
{
    let coset = d.inner.get_coset(Fr::GENERATOR).unwrap();
    let raw: Vec<Fr> = coeffs.iter().map(|s| s.inner).collect();
    coset.fft(&raw).into_iter().map(|x| Scalar { inner: x }).collect()
}

/// Relies on `ark_poly`'s inverse FFT over the coset of the domain: the
/// result is the coefficient form of the unique polynomial of degree below
/// the domain size that takes the given values on the coset points.
#[verifier::external_body]
pub fn coset_ifft(d: &Domain, evals: &Vec<Scalar>) -> (r: Vec<Scalar>)
    requires
        evals@.len() == domain_size_spec(*d),
    ensures
        r@.len() == domain_size_spec(*d),
        forall|i: int| 0 <= i < r@.len()
            ==> poly_eval_at(vals(r@), coset_point(*d, i)) == fval(evals@[i]),
        vals(r@) == coset_from_evals(*d, vals(evals@)),
{
    let coset = d.inner.get_coset(Fr::GENERATOR).unwrap();
    let raw: Vec<Fr> = evals.iter().map(|s| s.inner).collect();
    coset.ifft(&raw).into_iter().map(|x| Scalar { inner: x }).collect()
}

/// Relies on `ark_poly`'s inverse FFT over the domain itself: the result
/// is the coefficient form of a polynomial that takes the given values on
/// the domain points (the powers of the group generator).
#[verifier::external_body]
pub fn ifft(d: &Domain, evals: &Vec<Scalar>) -> (r: Vec<Scalar>)
    requires
        evals@.len() == domain_size_spec(*d),
    ensures
        r@.len() == domain_size_spec(*d),
        forall|i: int| 0 <= i < r@.len()
            ==> poly_eval_at(vals(r@), pow_m(domain_gen_spec(*d), i as nat)) == fval(evals@[i]),
{
    let raw: Vec<Fr> = evals.iter().map(|s| s.inner).collect();
    d.inner.ifft(&raw).into_iter().map(|x| Scalar { inner: x }).collect()
}

} // verus!
