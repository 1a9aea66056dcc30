//! Two-component vectors.

use super::scalar::Scalar;
use vstd::prelude::*;

verus! {

/// A vector, or a point, in two dimensions.
#[derive(Clone, Copy, Debug, PartialEq, Eq, Structural)]
pub struct Vector2D {
    pub x: Scalar,
    pub y: Scalar,
}

impl Vector2D {
    pub fn new(x: Scalar, y: Scalar) -> (r: Vector2D)
        ensures
            r == (Vector2D { x, y }),
    {
        Vector2D { x, y }
    }

    /// The components in the order `x`, `y`.
    pub fn to_array(self) -> (r: [Scalar; 2])
        ensures
            r@ =~= seq![self.x, self.y],
    {
        [self.x, self.y]
    }
}

impl vstd::std_specs::convert::FromSpecImpl<[Scalar; 2]> for Vector2D {
    open spec fn obeys_from_spec() -> bool {
        true
    }

    open spec fn from_spec(v: [Scalar; 2]) -> Vector2D {
        Vector2D { x: v[0], y: v[1] }
    }
}

impl From<[Scalar; 2]> for Vector2D {
    /// Takes the components in the order `x`, `y`.
    fn from(v: [Scalar; 2]) -> (r: Vector2D) {
        Vector2D::new(v[0], v[1])
    }
}

} // verus!
