//! Quaternions.

use super::scalar::Scalar;
use vstd::prelude::*;

verus! {

/// A quaternion with scalar part `w` and vector part `x`, `y`, `z`.
#[derive(Clone, Copy, Debug, PartialEq, Eq, Structural)]
pub struct Quaternion {
    pub w: Scalar,
    pub x: Scalar,
    pub y: Scalar,
    pub z: Scalar,
}

impl Quaternion {
    pub fn new(w: Scalar, x: Scalar, y: Scalar, z: Scalar) -> (r: Quaternion)
        ensures
            r == (Quaternion { w, x, y, z }),
    {
        Quaternion { w, x, y, z }
    }

    /// The components in the order `w`, `x`, `y`, `z`.
    pub fn to_array(self) -> (r: [Scalar; 4])
        ensures
            r@ =~= seq![self.w, self.x, self.y, self.z],
    {
        [self.w, self.x, self.y, self.z]
    }
}

impl vstd::std_specs::convert::FromSpecImpl<[Scalar; 4]> for Quaternion {
    open spec fn obeys_from_spec() -> bool {
        true
    }

    open spec fn from_spec(v: [Scalar; 4]) -> Quaternion {
        Quaternion { w: v[0], x: v[1], y: v[2], z: v[3] }
    }
}

impl From<[Scalar; 4]> for Quaternion {
    /// Takes the components in the order `w`, `x`, `y`, `z`.
    fn from(v: [Scalar; 4]) -> (r: Quaternion) {
        Quaternion::new(v[0], v[1], v[2], v[3])
    }
}

} // verus!
