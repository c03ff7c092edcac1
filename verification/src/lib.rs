use vstd::prelude::*;

pub mod curve;
pub mod srs;

verus! {

pub use crate::curve::G1Point;
pub use crate::curve::G2Point;
pub use crate::curve::Scalar;
pub use crate::srs::Srs;

} // verus!
