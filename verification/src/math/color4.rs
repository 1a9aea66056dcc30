//! RGBA colours.

use super::scalar::Scalar;
use vstd::prelude::*;

verus! {

/// A colour with red, green, blue and alpha channels.
#[derive(Clone, Copy, Debug, PartialEq, Eq, Structural)]
pub struct Color4D {
    pub r: Scalar,
    pub g: Scalar,
    pub b: Scalar,
    pub a: Scalar,
}

impl Color4D {
    pub fn new(r: Scalar, g: Scalar, b: Scalar, a: Scalar) -> (c: Color4D)
        ensures
            c == (Color4D { r, g, b, a }),
    {
        Color4D { r, g, b, a }
    }

    /// The components in the order `r`, `g`, `b`, `a`.
    pub fn to_array(self) -> (out: [Scalar; 4])
        ensures
            out@ =~= seq![self.r, self.g, self.b, self.a],
    {
        [self.r, self.g, self.b, self.a]
    }
}

impl vstd::std_specs::convert::FromSpecImpl<[Scalar; 4]> for Color4D {
    open spec fn obeys_from_spec() -> bool {
        true
    }

    open spec fn from_spec(v: [Scalar; 4]) -> Color4D {
        Color4D { r: v[0], g: v[1], b: v[2], a: v[3] }
    }
}

impl From<[Scalar; 4]> for Color4D {
    /// Takes the components in the order `r`, `g`, `b`, `a`.
    fn from(v: [Scalar; 4]) -> (c: Color4D) {
        Color4D::new(v[0], v[1], v[2], v[3])
    }
}

} // verus!
