//! Trusted boundary to the arkworks BLS12-381 curve library.
//!
//! The scalar field and the two curve groups are opaque here: what a field
//! element or a group element is made of, and how scalar multiplication
//! computes, belong to the curve library. Each library value is held
//! inside an opaque struct of this crate, each operation gets an
//! uninterpreted name, and the calls are wrapped so that everything else
//! in the crate is verified against those names. The canonical compressed
//! encoding of every value can be read back as plain bytes.

use vstd::prelude::*;

verus! {

/// An element of the BLS12-381 scalar field. Opaque: the value inside
/// belongs to the curve library.
#[verifier::external_body]
pub struct Scalar {
    inner: ark_bls12_381::Fr,
}

impl Clone for Scalar {
    /// Relies on the `Copy` of `ark_bls12_381::Fr`: the clone is the same
    /// value.
    #[verifier::external_body]
    fn clone(&self) -> (r: Self)
        ensures
            r == *self,
    {
        Scalar { inner: self.inner }
    }
}

impl Copy for Scalar {}

/// An affine point of the group G1. Opaque: the value inside belongs to
/// the curve library.
#[verifier::external_body]
pub struct G1Point {
    inner: ark_bls12_381::G1Affine,
}

/// An affine point of the group G2. Opaque: the value inside belongs to
/// the curve library.
#[verifier::external_body]
pub struct G2Point {
    inner: ark_bls12_381::G2Affine,
}

/// The scalar that `ark_ff::Fp` reads from a machine word: the image of
/// `x` in the field, a function of `x` alone.
pub uninterp spec fn scalar_of_u64(x: u64) -> Scalar;

/// The fixed prime-subgroup generator of G1, the same value at every
/// call; the unit argument only makes it a function.
pub uninterp spec fn g1_generator_of(c: ()) -> G1Point;

/// The fixed prime-subgroup generator of G2, the same value at every
/// call; the unit argument only makes it a function.
pub uninterp spec fn g2_generator_of(c: ()) -> G2Point;

/// The G1 point `s * p`: scalar multiplication, a function of the point
/// and the scalar alone.
pub uninterp spec fn g1_mul_of(p: G1Point, s: Scalar) -> G1Point;

/// The G2 point `s * p`: scalar multiplication, a function of the point
/// and the scalar alone.
pub uninterp spec fn g2_mul_of(p: G2Point, s: Scalar) -> G2Point;

/// The canonical compressed encoding of a scalar, a function of the
/// value alone.
pub uninterp spec fn scalar_bytes_of(s: Scalar) -> Seq<u8>;

/// The canonical compressed encoding of a G1 point, a function of the
/// value alone.
pub uninterp spec fn g1_bytes_of(p: G1Point) -> Seq<u8>;

/// The canonical compressed encoding of a G2 point, a function of the
/// value alone.
pub uninterp spec fn g2_bytes_of(p: G2Point) -> Seq<u8>;

impl Scalar {
    /// Relies on `From<u64> for ark_bls12_381::Fr`: the field element a
    /// machine word maps to, the same at every call.
    #[verifier::external_body]
    pub fn from_u64(x: u64) -> (r: Scalar)
        ensures
            r == scalar_of_u64(x),
    {
        Scalar { inner: ark_bls12_381::Fr::from(x) }
    }

    /// Relies on `ark_serialize::CanonicalSerialize::serialize_compressed`
    /// for `ark_bls12_381::Fr`: the canonical encoding of the value, which
    /// never fails to write into a byte vector.
    #[verifier::external_body]
    pub fn to_bytes(&self) -> (r: Vec<u8>)
        ensures
            r@ == scalar_bytes_of(*self),
    {
        let mut out = Vec::new();
        ark_serialize::CanonicalSerialize::serialize_compressed(&self.inner, &mut out)
            .expect("writing to a byte vector cannot fail");
        out
    }
}

impl G1Point {
    /// Relies on `ark_serialize::CanonicalSerialize::serialize_compressed`
    /// for `ark_bls12_381::G1Affine`: the canonical encoding of the point,
    /// which never fails to write into a byte vector.
    #[verifier::external_body]
    pub fn to_bytes(&self) -> (r: Vec<u8>)
        ensures
            r@ == g1_bytes_of(*self),
    {
        let mut out = Vec::new();
        ark_serialize::CanonicalSerialize::serialize_compressed(&self.inner, &mut out)
            .expect("writing to a byte vector cannot fail");
        out
    }
}

impl G2Point {
    /// Relies on `ark_serialize::CanonicalSerialize::serialize_compressed`
    /// for `ark_bls12_381::G2Affine`: the canonical encoding of the point,
    /// which never fails to write into a byte vector.
    #[verifier::external_body]
    pub fn to_bytes(&self) -> (r: Vec<u8>)
        ensures
            r@ == g2_bytes_of(*self),
    {
        let mut out = Vec::new();
        ark_serialize::CanonicalSerialize::serialize_compressed(&self.inner, &mut out)
            .expect("writing to a byte vector cannot fail");
        out
    }
}

/// Relies on `ark_ec::AffineRepr::generator` for `ark_bls12_381::G1Affine`:
/// it returns the fixed generator `P::GENERATOR`, a constant of the curve.
#[verifier::external_body]
pub(crate) fn g1_generator() -> (r: G1Point)
    ensures
        r == g1_generator_of(()),
{
    G1Point { inner: ark_ec::AffineRepr::generator() }
}

/// Relies on `ark_ec::AffineRepr::generator` for `ark_bls12_381::G2Affine`:
/// it returns the fixed generator `P::GENERATOR`, a constant of the curve.
#[verifier::external_body]
pub(crate) fn g2_generator() -> (r: G2Point)
    ensures
        r == g2_generator_of(()),
{
    G2Point { inner: ark_ec::AffineRepr::generator() }
}

/// Relies on `Mul<Fr> for ark_ec::short_weierstrass::Affine` (it computes
/// `self.mul_bigint(other.into_bigint())`, a function of point and scalar)
/// and on `From<Projective> for Affine`, the canonical affine form.
#[verifier::external_body]
pub(crate) fn g1_mul(p: &G1Point, s: &Scalar) -> (r: G1Point)
    ensures
        r == g1_mul_of(*p, *s),
{
    G1Point { inner: (p.inner * s.inner).into() }
}

/// Relies on `Mul<Fr> for ark_ec::short_weierstrass::Affine` (it computes
/// `self.mul_bigint(other.into_bigint())`, a function of point and scalar)
/// and on `From<Projective> for Affine`, the canonical affine form.
#[verifier::external_body]
pub(crate) fn g2_mul(p: &G2Point, s: &Scalar) -> (r: G2Point)
    ensures
        r == g2_mul_of(*p, *s),
{
    G2Point { inner: (p.inner * s.inner).into() }
}

/// Relies on `ark_ff::UniformRand::rand` over `rand::thread_rng`: a scalar
/// drawn uniformly at random from the field. Nothing can be promised of
/// the value that comes back.
#[verifier::external_body]
pub(crate) fn random_scalar() -> Scalar {
    let mut rng = rand::thread_rng();
    Scalar { inner: <ark_bls12_381::Fr as ark_ff::UniformRand>::rand(&mut rng) }
}

} // verus!
