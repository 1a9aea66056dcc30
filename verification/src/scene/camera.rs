//! Cameras.

use super::iter::Iter;
use vstd::prelude::*;

verus! {

/// A camera of a scene. What it holds stays with the import engine; here it is
/// known by its place among the cameras of its scene.
#[derive(Clone, Copy, Debug, PartialEq, Eq, Structural)]
pub struct Camera {
    pub index: u32,
}

/// A cursor over the cameras of a scene.
pub type CameraIter<'a> = Iter<'a, Camera>;

} // verus!
