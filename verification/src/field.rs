//! The scalar field of BLS12-381, behind trusted wrappers.
//!
//! A `Scalar` holds an `ark_bls12_381::Fr` field element.  Every scalar is
//! modelled in specifications by its canonical integer representative,
//! reduced modulo the prime `field_mod()`.  The arithmetic itself is done
//! by `ark_ff`; the wrappers state what each operation returns in terms of
//! exact modular arithmetic.

use vstd::prelude::*;
use ark_bls12_381::Fr;
use ark_ff::Field;
use ark_ff::Zero;
use ark_ec::twisted_edwards::TECurveConfig;

verus! {

/// The prime modulus of the BLS12-381 scalar field,
/// 52435875175126190479447740508185965837690552500527637822603658699938581184513,
/// written in base 2^64 limbs.
pub open spec fn field_mod() -> int {
    ((0x73eda753299d7d48int * 0x10000000000000000 + 0x3339d80809a1d805) * 0x10000000000000000
        + 0x53bda402fffe5bfe) * 0x10000000000000000 + 0xffffffff00000001
}

/// An element of the BLS12-381 scalar field.  The inner `ark_ff` value is
/// opaque here; contracts speak of `fval` only.
#[verifier::external_body]
pub struct Scalar {
    pub(crate) inner: Fr,
}

/// The canonical integer representative of a scalar.
pub uninterp spec fn fr_int(x: Scalar) -> int;

/// The value of a scalar: its canonical representative reduced modulo the
/// field's prime.  Always lies in `[0, field_mod())`.
pub open spec fn fval(x: Scalar) -> int {
    fr_int(x) % field_mod()
}

/// Addition modulo the field prime.
pub open spec fn addm(a: int, b: int) -> int {
    (a + b) % field_mod()
}

/// Subtraction modulo the field prime.
pub open spec fn subm(a: int, b: int) -> int {
    (a - b) % field_mod()
}

/// Multiplication modulo the field prime.
pub open spec fn mulm(a: int, b: int) -> int {
    (a * b) % field_mod()
}

/// The values of a sequence of scalars.
pub open spec fn vals(s: Seq<Scalar>) -> Seq<int> {
    s.map(|i: int, x: Scalar| fval(x))
}

/// Relies on `Copy` for `ark` field elements: the copy has the same value
/// and the same canonical encoding.
#[verifier::external_body]
pub fn fe_copy(a: &Scalar) -> (r: Scalar)
    ensures
        fval(r) == fval(*a),
        fr_bytes(r) == fr_bytes(*a),
{
    Scalar { inner: a.inner }
}

/// Relies on `ark_ff`'s field addition on `Fp`: exact addition modulo the prime.
#[verifier::external_body]
pub fn fe_add(a: &Scalar, b: &Scalar) -> (r: Scalar)
    ensures
        fval(r) == addm(fval(*a), fval(*b)),
{
    Scalar { inner: a.inner + b.inner }
}

/// Relies on `ark_ff`'s field subtraction on `Fp`: exact subtraction modulo the prime.
#[verifier::external_body]
pub fn fe_sub(a: &Scalar, b: &Scalar) -> (r: Scalar)
    ensures
        fval(r) == subm(fval(*a), fval(*b)),
{
    Scalar { inner: a.inner - b.inner }
}

/// Relies on `ark_ff`'s field multiplication on `Fp`: exact multiplication modulo the prime.
#[verifier::external_body]
pub fn fe_mul(a: &Scalar, b: &Scalar) -> (r: Scalar)
    ensures
        fval(r) == mulm(fval(*a), fval(*b)),
{
    Scalar { inner: a.inner * b.inner }
}

/// Relies on `ark_ff`'s field negation on `Fp`: exact negation modulo the prime.
#[verifier::external_body]
pub fn fe_neg(a: &Scalar) -> (r: Scalar)
    ensures
        fval(r) == subm(0, fval(*a)),
{
    Scalar { inner: -a.inner }
}

/// Relies on `ark_ff::Field::inverse`: `Some` exactly on nonzero elements,
/// and the product of the result with the argument is one.
#[verifier::external_body]
pub(crate) fn fe_inverse(a: &Scalar) -> (r: Option<Scalar>)
    ensures
        r.is_some() <==> fval(*a) != 0,
        r.is_some() ==> mulm(fval(*a), fval(r.unwrap())) == 1,
{
    a.inner.inverse().map(|x| Scalar { inner: x })
}

/// Relies on `ark_ff::Zero::is_zero`: true exactly on the zero element.
#[verifier::external_body]
pub fn fe_is_zero(a: &Scalar) -> (r: bool)
    ensures
        r <==> fval(*a) == 0,
{
    a.inner.is_zero()
}

/// Relies on `ark_ff`'s equality on `Fp`: true exactly on equal field values.
#[verifier::external_body]
pub fn fe_equal(a: &Scalar, b: &Scalar) -> (r: bool)
    ensures
        r <==> fval(*a) == fval(*b),
{
    a.inner == b.inner
}

/// Relies on `ark_ff::Zero::zero`: the additive identity, with canonical
/// representative zero.
#[verifier::external_body]
pub fn fe_zero() -> (r: Scalar)
    ensures
        fr_int(r) == 0,
        fval(r) == 0,
{
    Scalar { inner: Fr::zero() }
}

/// Relies on `ark_ff`'s conversion from `u64`: the value embeds directly.
#[verifier::external_body]
pub fn fe_from_u64(v: u64) -> (r: Scalar)
    ensures
        fval(r) == (v as int) % field_mod(),
{
    Scalar { inner: Fr::from(v) }
}

/// The canonical byte encoding of a scalar: 32 bytes, little-endian,
/// determined by the value alone.
pub uninterp spec fn fr_bytes(x: Scalar) -> Seq<u8>;

/// Relies on `ark_serialize::CanonicalSerialize::serialize_compressed` for
/// `Fp`: the fixed-width canonical little-endian encoding of the value.
#[verifier::external_body]
pub fn fe_to_bytes(x: &Scalar) -> (r: Vec<u8>)
    ensures
        r@ == fr_bytes(*x),
        r@.len() == 32,
{
    let mut out = Vec::new();
    ark_serialize::CanonicalSerialize::serialize_compressed(&x.inner, &mut out).unwrap();
    out
}

/// Relies on `ark_serialize::CanonicalDeserialize::deserialize_compressed`
/// for `Fp`: it accepts exactly the canonical encodings, returns the
/// encoded value, and what it returns re-serializes to the same bytes.
#[verifier::external_body]
pub fn fe_from_bytes(b: &[u8]) -> (r: Option<Scalar>)
    requires
        b@.len() == 32,
    ensures
        r.is_some() ==> b@ == fr_bytes(r.unwrap()),
        forall|v: Scalar| b@ == fr_bytes(v) ==> r.is_some() && fval(r.unwrap()) == fval(v),
{
    ark_serialize::CanonicalDeserialize::deserialize_compressed(b).ok().map(
        |x| Scalar { inner: x },
    )
}

/// Relies on `ark_ed_on_bls12_381::JubjubConfig::COEFF_A`, documented in its
/// source as `-1` in the field.
#[verifier::external_body]
pub(crate) fn te_coeff_a() -> (r: Scalar)
    ensures
        fval(r) == field_mod() - 1,
{
    Scalar { inner: <ark_ed_on_bls12_381::JubjubConfig as TECurveConfig>::COEFF_A }
}

/// The twisted-Edwards `d` coefficient of the embedded curve,
/// 19257038036680949359750312669786877991949435402254120286184196891950884077233,
/// written in base 2^64 limbs.
pub open spec fn embedded_curve_d() -> int {
    ((0x2a9318e74bfa2b48int * 0x10000000000000000 + 0xf5fd9207e6bd7fd4) * 0x10000000000000000
        + 0x292d7f6d37579d26) * 0x10000000000000000 + 0x01065fd6d6343eb1
}

/// Relies on `ark_ed_on_bls12_381::JubjubConfig::COEFF_D`, documented in its
/// source as `-(10240/10241)` in the field, with this representative.
#[verifier::external_body]
pub(crate) fn te_coeff_d() -> (r: Scalar)
    ensures
        fval(r) == embedded_curve_d(),
{
    Scalar { inner: <ark_ed_on_bls12_381::JubjubConfig as TECurveConfig>::COEFF_D }
}

} // verus!
