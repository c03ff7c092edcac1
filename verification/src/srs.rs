//! The structured reference string (SRS) of a KZG-style polynomial
//! commitment scheme: the successive powers of a secret scalar `s` applied
//! to the G1 generator, together with the G2 generator and its multiple
//! by `s`.

use vstd::prelude::*;

use crate::curve::G1Point;
use crate::curve::G2Point;
use crate::curve::Scalar;
use crate::curve::g1_generator;
use crate::curve::g1_generator_of;
use crate::curve::g1_mul;
use crate::curve::g1_mul_of;
use crate::curve::g2_generator;
use crate::curve::g2_generator_of;
use crate::curve::g2_mul;
use crate::curve::g2_mul_of;
use crate::curve::random_scalar;

verus! {

/// The number of G1 points that `Srs::from_secret` adds on top of its
/// gate count: the blinding and degree-bound margin of the commitment
/// scheme.
pub const G1_DEGREE_MARGIN: usize = 3;

/// The `i`-th element of the G1 sequence: the generator multiplied by
/// `s`, `i` times over.
pub open spec fn g1_power(s: Scalar, i: nat) -> G1Point
    decreases i,
{
    if i == 0 {
        g1_generator_of(())
    } else {
        g1_mul_of(g1_power(s, (i - 1) as nat), s)
    }
}

/// The first `length` elements of the G1 sequence for the scalar `s`.
pub open spec fn g1_powers(s: Scalar, length: nat) -> Seq<G1Point> {
    Seq::new(length, |i: int| g1_power(s, i as nat))
}

/// The structured reference string: the G1 powers of the secret, and the
/// G2 generator with its multiple by the secret. Immutable once built;
/// the secret itself is never stored.
pub struct Srs {
    g1: Vec<G1Point>,
    g2: G2Point,
    g2s: G2Point,
}

impl Srs {
    /// The G1 point list.
    pub closed spec fn g1_points(self) -> Seq<G1Point> {
        self.g1@
    }

    /// The first element of the G2 pair.
    pub closed spec fn g2_first(self) -> G2Point {
        self.g2
    }

    /// The second element of the G2 pair.
    pub closed spec fn g2_second(self) -> G2Point {
        self.g2s
    }

    /// Ties an aggregate to a secret `s` and a gate count: the G1 list is
    /// the power sequence of `s`, and the G2 pair is the generator with
    /// its multiple by `s`.
    pub open spec fn is_srs_for(self, s: Scalar, gates: nat) -> bool {
        &&& self.g1_points() == g1_powers(s, (gates + G1_DEGREE_MARGIN) as nat)
        &&& self.g2_first() == g2_generator_of(())
        &&& self.g2_second() == g2_mul_of(g2_generator_of(()), s)
    }

    /// The G1 sequence `[G, s*G, s^2*G, ...]`, truncated to `length`
    /// elements: element 0 is the generator, and each later element is the
    /// scalar multiple of the one before it by `s`.
    pub fn g1(s: Scalar, length: usize) -> (r: Vec<G1Point>)
        ensures
            r@ == g1_powers(s, length as nat),
            r@.len() == length,
            length == 0 ==> r@ == Seq::<G1Point>::empty(),
            length >= 1 ==> r@[0] == g1_generator_of(()),
            forall|i: int| 1 <= i < length ==> #[trigger] r@[i] == g1_mul_of(r@[i - 1], s),
    {
        let mut out: Vec<G1Point> = Vec::new();
        if length == 0 {
            proof {
                assert(out@ =~= g1_powers(s, 0));
            }
            return out;
        }
        out.push(g1_generator());
        proof {
            assert(out@ =~= g1_powers(s, 1));
        }
        while out.len() < length
            invariant
                1 <= out@.len() <= length,
                out@ == g1_powers(s, out@.len() as nat),
            decreases length - out@.len(),
        {
            let n = out.len();
            let next = g1_mul(&out[n - 1], &s);
            out.push(next);
            proof {
                assert(out@[n as int] == g1_power(s, n as nat));
                assert(out@ =~= g1_powers(s, out@.len() as nat));
            }
        }
        out
    }

    /// The G2 pair: the G2 generator, and its scalar multiple by `s`.
    pub fn g2(s: Scalar) -> (r: (G2Point, G2Point))
        ensures
            r.0 == g2_generator_of(()),
            r.1 == g2_mul_of(r.0, s),
    {
        let generator = g2_generator();
        let d = g2_mul(&generator, &s);
        (generator, d)
    }

    /// Builds the reference string for `gates` gates: `gates +
    /// G1_DEGREE_MARGIN` G1 powers of `s`, and the G2 pair for `s`.
    /// Total for every scalar and every gate count that fits.
    pub fn from_secret(s: Scalar, gates: usize) -> (r: Self)
        requires
            gates + G1_DEGREE_MARGIN <= usize::MAX,
        ensures
            r.is_srs_for(s, gates as nat),
            r.g1_points().len() == gates + G1_DEGREE_MARGIN,
    {
        let g1 = Self::g1(s, gates + G1_DEGREE_MARGIN);
        let (g2, g2s) = Self::g2(s);
        Self { g1, g2, g2s }
    }

    /// Builds the reference string from a scalar drawn at random from the
    /// field: some secret fixed all three components.
    pub fn random(gates: usize) -> (r: Self)
        requires
            gates + G1_DEGREE_MARGIN <= usize::MAX,
        ensures
            exists|s: Scalar| r.is_srs_for(s, gates as nat),
            r.g1_points().len() == gates + G1_DEGREE_MARGIN,
    {
        let s = random_scalar();
        Self::from_secret(s, gates)
    }

    /// Read-only view of the G1 point list.
    pub fn g1_ref(&self) -> (r: &Vec<G1Point>)
        ensures
            r@ == self.g1_points(),
    {
        &self.g1
    }

    /// Read-only view of the first element of the G2 pair.
    pub fn g2_ref(&self) -> (r: &G2Point)
        ensures
            *r == self.g2_first(),
    {
        &self.g2
    }

    /// Read-only view of the second element of the G2 pair.
    pub fn g2s_ref(&self) -> (r: &G2Point)
        ensures
            *r == self.g2_second(),
    {
        &self.g2s
    }
}

/// Determinism: the reference string is a function of the secret and the
/// gate count alone, so two aggregates built from the same pair agree in
/// every component.
pub proof fn lemma_srs_deterministic(a: Srs, b: Srs, s: Scalar, gates: nat)
    requires
        a.is_srs_for(s, gates),
        b.is_srs_for(s, gates),
    ensures
        a.g1_points() == b.g1_points(),
        a.g2_first() == b.g2_first(),
        a.g2_second() == b.g2_second(),
{
}

} // verus!
