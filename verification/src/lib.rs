//! Arithmetic core of a PLONK-style prover: quotient and linearisation
//! polynomial construction over the BLS12-381 scalar field.

pub mod arith;
pub mod domain;
pub mod field;
pub mod linearisation_poly;
pub mod permutation;
pub mod poly;
pub mod prover_key;
pub mod quotient_poly;
pub mod widget;

use vstd::prelude::*;

verus! {

/// The index into an extended evaluation table that holds the "next row"
/// value for position `i`: a shift by one base-domain row, which on the
/// four-fold extended domain is a rotation by four places.
pub fn next_row_index(i: usize, len: usize) -> (r: usize)
    requires
        4 <= len,
        i < len,
    ensures
        r == (i + 4) % (len as int),
{
    if i < len - 4 {
        proof {
            vstd::arithmetic::div_mod::lemma_small_mod((i + 4) as nat, len as nat);
        }
        i + 4
    } else {
        let r = i - (len - 4);
        assert((i + 4) % (len as int) == r) by {
            assert(len <= i + 4 < 2 * len);
            vstd::arithmetic::div_mod::lemma_mod_sub_multiples_vanish((i + 4) as int, len as int);
            vstd::arithmetic::div_mod::lemma_small_mod((i + 4 - len) as nat, len as nat);
        };
        r
    }
}

} // verus!
