//! Materials.

use super::iter::Iter;
use vstd::prelude::*;

verus! {

/// A material of a scene. What it holds stays with the import engine; here it is
/// known by its place among the materials of its scene.
#[derive(Clone, Copy, Debug, PartialEq, Eq, Structural)]
pub struct Material {
    pub index: u32,
}

/// A cursor over the materials of a scene.
pub type MaterialIter<'a> = Iter<'a, Material>;

} // verus!
