//! Small lemmas about arithmetic modulo the field prime.

use vstd::prelude::*;
use crate::field::{field_mod, addm, subm, mulm};

verus! {

pub proof fn lemma_mod_bounds(a: int)
    ensures
        0 <= a % field_mod() < field_mod(),
{
}

/// A reduced value is unchanged by reduction.
pub proof fn lemma_reduced(a: int)
    requires
        0 <= a < field_mod(),
    ensures
        a % field_mod() == a,
{
    vstd::arithmetic::div_mod::lemma_small_mod(a as nat, field_mod() as nat);
}

pub proof fn lemma_mulm_comm(a: int, b: int)
    ensures
        mulm(a, b) == mulm(b, a),
{
    vstd::arithmetic::mul::lemma_mul_is_commutative(a, b);
}

pub proof fn lemma_mulm_assoc(a: int, b: int, c: int)
    ensures
        mulm(mulm(a, b), c) == mulm(a, mulm(b, c)),
{
    vstd::arithmetic::div_mod::lemma_mul_mod_noop_left(a * b, c, field_mod());
    vstd::arithmetic::div_mod::lemma_mul_mod_noop_right(a, b * c, field_mod());
    vstd::arithmetic::mul::lemma_mul_is_associative(a, b, c);
}

pub proof fn lemma_mulm_zero(a: int)
    ensures
        mulm(a, 0) == 0,
        mulm(0, a) == 0,
{
    lemma_reduced(0);
}

pub proof fn lemma_mulm_one(a: int)
    requires
        0 <= a < field_mod(),
    ensures
        mulm(a, 1) == a,
        mulm(1, a) == a,
{
    lemma_reduced(a);
}

pub proof fn lemma_addm_zero(a: int)
    requires
        0 <= a < field_mod(),
    ensures
        addm(a, 0) == a,
        addm(0, a) == a,
{
    lemma_reduced(a);
}

pub proof fn lemma_subm_self(a: int)
    ensures
        subm(a, a) == 0,
{
    lemma_reduced(0);
}

/// Multiplication distributes over addition modulo the prime.
pub proof fn lemma_mulm_dist(k: int, a: int, b: int)
    ensures
        mulm(k, addm(a, b)) == addm(mulm(k, a), mulm(k, b)),
{
    vstd::arithmetic::div_mod::lemma_mul_mod_noop_right(k, a + b, field_mod());
    vstd::arithmetic::mul::lemma_mul_is_distributive_add(k, a, b);
    vstd::arithmetic::div_mod::lemma_add_mod_noop(k * a, k * b, field_mod());
}

} // verus!
