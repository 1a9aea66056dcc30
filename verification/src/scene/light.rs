//! Lights.

use super::iter::Iter;
use vstd::prelude::*;

verus! {

/// A light source of a scene. What it holds stays with the import engine; here it is
/// known by its place among the lights of its scene.
#[derive(Clone, Copy, Debug, PartialEq, Eq, Structural)]
pub struct Light {
    pub index: u32,
}

/// A cursor over the lights of a scene.
pub type LightIter<'a> = Iter<'a, Light>;

} // verus!
