//! RGB colours.

use super::scalar::Scalar;
use vstd::prelude::*;

verus! {

/// A colour with red, green and blue channels.
#[derive(Clone, Copy, Debug, PartialEq, Eq, Structural)]
pub struct Color3D {
    pub r: Scalar,
    pub g: Scalar,
    pub b: Scalar,
}

impl Color3D {
    pub fn new(r: Scalar, g: Scalar, b: Scalar) -> (c: Color3D)
        ensures
            c == (Color3D { r, g, b }),
    {
        Color3D { r, g, b }
    }

    /// The components in the order `r`, `g`, `b`.
    pub fn to_array(self) -> (a: [Scalar; 3])
        ensures
            a@ =~= seq![self.r, self.g, self.b],
    {
        [self.r, self.g, self.b]
    }
}

impl vstd::std_specs::convert::FromSpecImpl<[Scalar; 3]> for Color3D {
    open spec fn obeys_from_spec() -> bool {
        true
    }

    open spec fn from_spec(v: [Scalar; 3]) -> Color3D {
        Color3D { r: v[0], g: v[1], b: v[2] }
    }
}

impl From<[Scalar; 3]> for Color3D {
    /// Takes the components in the order `r`, `g`, `b`.
    fn from(v: [Scalar; 3]) -> (c: Color3D) {
        Color3D::new(v[0], v[1], v[2])
    }
}

} // verus!
