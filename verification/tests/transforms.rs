//! Domain transforms: the coset FFT round trip and known values.

use plonk_arith::field::{Scalar, fe_from_u64, fe_equal};
use plonk_arith::poly::Poly;
use plonk_arith::domain::{domain_new, coset_fft, coset_ifft, ifft};

fn fe(v: u64) -> Scalar {
    fe_from_u64(v)
}

#[test]
fn coset_transforms_round_trip() {
    let d = domain_new(8).unwrap();
    let coeffs: Vec<Scalar> = (1u64..=8).map(fe_from_u64).collect();
    let p = Poly { coeffs };
    let evals = coset_fft(&d, &p.coeffs);
    assert_eq!(evals.len(), 8);
    let back = coset_ifft(&d, &evals);
    assert_eq!(back.len(), 8);
    for i in 0..8 {
        assert!(fe_equal(&back[i], &p.coeffs[i]));
    }
}

#[test]
fn coset_fft_of_constant_polynomial() {
    let d = domain_new(4).unwrap();
    let coeffs = vec![fe(9)];
    let evals = coset_fft(&d, &coeffs);
    assert_eq!(evals.len(), 4);
    for e in &evals {
        assert!(fe_equal(e, &fe(9)));
    }
}

#[test]
fn coset_fft_of_linear_polynomial_starts_at_offset() {
    // the polynomial X evaluated at the first coset point gives the
    // field's multiplicative generator, 7
    let d = domain_new(4).unwrap();
    let coeffs = vec![fe(0), fe(1)];
    let evals = coset_fft(&d, &coeffs);
    assert!(fe_equal(&evals[0], &fe(7)));
}

#[test]
fn ifft_interpolates_evaluations() {
    // the polynomial through (w^i, i+1) evaluated back at the domain
    // points returns the table
    let d = domain_new(4).unwrap();
    let evals: Vec<Scalar> = (1u64..=4).map(fe_from_u64).collect();
    let p = Poly { coeffs: ifft(&d, &evals) };
    assert_eq!(p.coeffs.len(), 4);
    // the value at the first domain point, 1, is the first table entry
    let at_one = p.evaluate(&fe(1));
    assert!(fe_equal(&at_one, &fe(1)));
}
