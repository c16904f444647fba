//! The acceleration vector type of the `accelerometer` crate, as seen by the proofs.
use vstd::prelude::*;
use accelerometer::vector::I16x3;

verus! {

/// `I16x3` of micromath, re-exported by `accelerometer`: a plain struct of three public
/// `i16` fields, `x`, `y` and `z`, which the proofs read.
#[verifier::external_type_specification]
pub struct ExI16x3(I16x3);

/// Relies on `I16x3::new` (micromath): it stores its three arguments as `x`, `y` and `z`.
pub assume_specification[ I16x3::new ](x: i16, y: i16, z: i16) -> (r: I16x3)
    ensures
        r.x == x,
        r.y == y,
        r.z == z,
;

} // verus!
