//! Three-component vectors.

use super::scalar::Scalar;
use vstd::prelude::*;

verus! {

/// A vector, or a point, in three dimensions.
#[derive(Clone, Copy, Debug, PartialEq, Eq, Structural)]
pub struct Vector3D {
    pub x: Scalar,
    pub y: Scalar,
    pub z: Scalar,
}

impl Vector3D {
    pub fn new(x: Scalar, y: Scalar, z: Scalar) -> (r: Vector3D)
        ensures
            r == (Vector3D { x, y, z }),
    {
        Vector3D { x, y, z }
    }

    /// The components in the order `x`, `y`, `z`.
    pub fn to_array(self) -> (r: [Scalar; 3])
        ensures
            r@ =~= seq![self.x, self.y, self.z],
    {
        [self.x, self.y, self.z]
    }
}

impl vstd::std_specs::convert::FromSpecImpl<[Scalar; 3]> for Vector3D {
    open spec fn obeys_from_spec() -> bool {
        true
    }

    open spec fn from_spec(v: [Scalar; 3]) -> Vector3D {
        Vector3D { x: v[0], y: v[1], z: v[2] }
    }
}

impl From<[Scalar; 3]> for Vector3D {
    /// Takes the components in the order `x`, `y`, `z`.
    fn from(v: [Scalar; 3]) -> (r: Vector3D) {
        Vector3D::new(v[0], v[1], v[2])
    }
}

/// A cursor over a sequence of vectors, front to back.
pub struct Vector3DIter<'a> {
    items: &'a [Vector3D],
    idx: usize,
}

impl<'a> Vector3DIter<'a> {
    /// The vectors that the cursor has yet to yield, in order.
    pub closed spec fn remaining(&self) -> Seq<Vector3D> {
        self.items@.skip(self.idx as int)
    }

    #[verifier::type_invariant]
    pub closed spec fn wf(&self) -> bool {
        self.idx <= self.items@.len()
    }

    /// A cursor at the front of `items`.
    pub fn new(items: &'a [Vector3D]) -> (r: Vector3DIter<'a>)
        ensures
            r.remaining() == items@,
    {
        Vector3DIter { items, idx: 0 }
    }

    /// Yields the front vector and moves past it, or yields `None` at the
    /// end.
    pub fn next(&mut self) -> (r: Option<Vector3D>)
        ensures
            old(self).remaining().len() == 0 ==> r is None && final(self).remaining()
                == old(self).remaining(),
            old(self).remaining().len() > 0 ==> r == Some(old(self).remaining()[0])
                && final(self).remaining() == old(self).remaining().skip(1),
    {
        proof {
            use_type_invariant(&*self);
        }
        if self.idx < self.items.len() {
            let item = self.items[self.idx];
            self.idx = self.idx + 1;
            Some(item)
        } else {
            None
        }
    }

    /// Number of vectors yet to be yielded.
    pub fn len(&self) -> (n: usize)
        ensures
            n == self.remaining().len(),
    {
        proof {
            use_type_invariant(self);
        }
        self.items.len() - self.idx
    }
}

} // verus!
