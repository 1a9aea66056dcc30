//! Faces of a mesh.

use super::iter::Iter;
use vstd::prelude::*;

verus! {

/// A face: the indices of its vertices in the mesh that it belongs to. A
/// face has as many indices as its primitive has corners; only triangulated
/// meshes have three throughout.
pub struct Face {
    indices: Vec<u32>,
}

/// A cursor over the faces of a mesh.
pub type FaceIter<'a> = Iter<'a, Face>;

impl View for Face {
    type V = Seq<u32>;

    closed spec fn view(&self) -> Seq<u32> {
        self.indices@
    }
}

impl Face {
    #[verifier::type_invariant]
    pub closed spec fn wf(&self) -> bool {
        self.indices@.len() <= u32::MAX
    }

    /// The face with the given indices, or `None` when there are more of
    /// them than a 32-bit count can say.
    pub fn new(indices: Vec<u32>) -> (r: Option<Face>)
        ensures
            r is Some <==> indices@.len() <= u32::MAX,
            r is Some ==> r->0@ == indices@,
    {
        if indices.len() <= u32::MAX as usize {
            Some(Face { indices })
        } else {
            None
        }
    }

    /// Number of indices of the face.
    pub fn num_indices(&self) -> (n: u32)
        ensures
            n == self@.len(),
    {
        proof {
            use_type_invariant(self);
        }
        self.indices.len() as u32
    }

    /// The indices of the face.
    pub fn indices(&self) -> (r: &[u32])
        ensures
            r@ == self@,
    {
        self.indices.as_slice()
    }
}

impl vstd::std_specs::core::IndexSpecImpl<isize> for Face {
    /// An index must name one of the indices of the face.
    open spec fn index_req(&self, index: &isize) -> bool {
        0 <= *index < self@.len()
    }
}

impl core::ops::Index<isize> for Face {
    type Output = u32;

    /// The index at position `index` of the face.
    fn index(&self, index: isize) -> (r: &u32)
        ensures
            *r == self@[index as int],
    {
        &self.indices[index as usize]
    }
}

} // verus!
