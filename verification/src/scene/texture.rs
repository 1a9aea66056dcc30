//! Textures.

use super::iter::Iter;
use vstd::prelude::*;

verus! {

/// An embedded texture of a scene. What it holds stays with the import engine; here it is
/// known by its place among the textures of its scene.
#[derive(Clone, Copy, Debug, PartialEq, Eq, Structural)]
pub struct Texture {
    pub index: u32,
}

/// A cursor over the textures of a scene.
pub type TextureIter<'a> = Iter<'a, Texture>;

} // verus!
