//! Checks of the reference-string generator against the curve library
//! called directly: every point the library hands out is compared, through
//! its canonical compressed encoding, with the value that arkworks
//! computes for the same inputs.

use ark_ec::AffineRepr;
use ark_serialize::CanonicalSerialize;
use zkg::Scalar;
use zkg::Srs;

fn fr_bytes(x: &ark_bls12_381::Fr) -> Vec<u8> {
    let mut out = Vec::new();
    x.serialize_compressed(&mut out).unwrap();
    out
}

fn g1_bytes(p: &ark_bls12_381::G1Affine) -> Vec<u8> {
    let mut out = Vec::new();
    p.serialize_compressed(&mut out).unwrap();
    out
}

fn g2_bytes(p: &ark_bls12_381::G2Affine) -> Vec<u8> {
    let mut out = Vec::new();
    p.serialize_compressed(&mut out).unwrap();
    out
}

#[test]
fn scalar_from_u64_matches_field() {
    let s = Scalar::from_u64(42);
    assert_eq!(s.to_bytes(), fr_bytes(&ark_bls12_381::Fr::from(42u64)));
}

#[test]
fn g1_first_element_is_generator() {
    let pts = Srs::g1(Scalar::from_u64(5), 3);
    assert_eq!(
        pts[0].to_bytes(),
        g1_bytes(&ark_bls12_381::G1Affine::generator()),
    );
}

#[test]
fn g1_empty_when_length_zero() {
    let pts = Srs::g1(Scalar::from_u64(5), 0);
    assert_eq!(pts.len(), 0);
}

#[test]
fn g1_single_element() {
    let pts = Srs::g1(Scalar::from_u64(12345), 1);
    assert_eq!(pts.len(), 1);
    assert_eq!(
        pts[0].to_bytes(),
        g1_bytes(&ark_bls12_381::G1Affine::generator()),
    );
}

#[test]
fn g1_recurrence_matches_curve() {
    let fr = ark_bls12_381::Fr::from(7u64);
    let pts = Srs::g1(Scalar::from_u64(7), 5);
    assert_eq!(pts.len(), 5);
    let mut expected = ark_bls12_381::G1Affine::generator();
    assert_eq!(pts[0].to_bytes(), g1_bytes(&expected));
    for i in 1..5 {
        expected = ark_bls12_381::G1Affine::from(expected * fr);
        assert_eq!(pts[i].to_bytes(), g1_bytes(&expected));
    }
}

#[test]
fn g2_pair_is_generator_and_multiple() {
    let fr = ark_bls12_381::Fr::from(11u64);
    let (first, second) = Srs::g2(Scalar::from_u64(11));
    let generator = ark_bls12_381::G2Affine::generator();
    assert_eq!(first.to_bytes(), g2_bytes(&generator));
    assert_eq!(
        second.to_bytes(),
        g2_bytes(&ark_bls12_381::G2Affine::from(generator * fr)),
    );
}

#[test]
fn g2_first_element_independent_of_secret() {
    let (a, _) = Srs::g2(Scalar::from_u64(3));
    let (b, _) = Srs::g2(Scalar::from_u64(1000000007));
    assert_eq!(a.to_bytes(), b.to_bytes());
    assert_eq!(a.to_bytes(), g2_bytes(&ark_bls12_381::G2Affine::generator()));
}

#[test]
fn from_secret_g1_length_is_gates_plus_margin() {
    for gates in [0usize, 1, 2, 10] {
        let srs = Srs::from_secret(Scalar::from_u64(9), gates);
        assert_eq!(srs.g1_ref().len(), gates + 3);
    }
}

#[test]
fn from_secret_components_match_curve() {
    let fr = ark_bls12_381::Fr::from(6u64);
    let srs = Srs::from_secret(Scalar::from_u64(6), 2);
    let mut expected = ark_bls12_381::G1Affine::generator();
    assert_eq!(srs.g1_ref()[0].to_bytes(), g1_bytes(&expected));
    for i in 1..5 {
        expected = ark_bls12_381::G1Affine::from(expected * fr);
        assert_eq!(srs.g1_ref()[i].to_bytes(), g1_bytes(&expected));
    }
    let g2gen = ark_bls12_381::G2Affine::generator();
    assert_eq!(srs.g2_ref().to_bytes(), g2_bytes(&g2gen));
    assert_eq!(
        srs.g2s_ref().to_bytes(),
        g2_bytes(&ark_bls12_381::G2Affine::from(g2gen * fr)),
    );
}

#[test]
fn from_secret_deterministic() {
    let a = Srs::from_secret(Scalar::from_u64(9), 4);
    let b = Srs::from_secret(Scalar::from_u64(9), 4);
    assert_eq!(a.g1_ref().len(), b.g1_ref().len());
    for i in 0..a.g1_ref().len() {
        assert_eq!(a.g1_ref()[i].to_bytes(), b.g1_ref()[i].to_bytes());
    }
    assert_eq!(a.g2_ref().to_bytes(), b.g2_ref().to_bytes());
    assert_eq!(a.g2s_ref().to_bytes(), b.g2s_ref().to_bytes());
}

#[test]
fn powers_of_two_example() {
    // The secret 2 over G1, written additively: the sequence of points is
    // the generator taken 1, 2, 4 and 8 times.
    let pts = Srs::g1(Scalar::from_u64(2), 4);
    assert_eq!(pts.len(), 4);
    let generator = ark_bls12_381::G1Affine::generator();
    for (i, multiple) in [1u64, 2, 4, 8].into_iter().enumerate() {
        let expected =
            ark_bls12_381::G1Affine::from(generator * ark_bls12_381::Fr::from(multiple));
        assert_eq!(pts[i].to_bytes(), g1_bytes(&expected));
    }
}

#[test]
fn random_srs_has_expected_shape() {
    let srs = Srs::random(2);
    assert_eq!(srs.g1_ref().len(), 5);
    assert_eq!(
        srs.g1_ref()[0].to_bytes(),
        g1_bytes(&ark_bls12_381::G1Affine::generator()),
    );
    assert_eq!(
        srs.g2_ref().to_bytes(),
        g2_bytes(&ark_bls12_381::G2Affine::generator()),
    );
}
