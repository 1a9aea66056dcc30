//! Animations.

use super::iter::Iter;
use crate::math::scalar::Scalar64;
use crate::math::{Quaternion, Vector3D};
use crate::string::AiString;
use vstd::prelude::*;

verus! {

/// A vector at a point in time.
#[derive(Clone, Copy, Debug, PartialEq, Eq, Structural)]
pub struct VectorKey {
    pub time: Scalar64,
    pub value: Vector3D,
}

/// A rotation at a point in time.
#[derive(Clone, Copy, Debug, PartialEq, Eq, Structural)]
pub struct QuatKey {
    pub time: Scalar64,
    pub value: Quaternion,
}

/// The animation of one node: its position, rotation and scaling over time.
pub struct NodeAnim {
    /// Name of the node that is animated.
    pub node_name: AiString,
    pub position_keys: Vec<VectorKey>,
    pub rotation_keys: Vec<QuatKey>,
    pub scaling_keys: Vec<VectorKey>,
}

/// An animation: a set of node animations that run together.
pub struct Animation {
    pub name: AiString,
    /// Duration in ticks.
    pub duration: Scalar64,
    pub ticks_per_second: Scalar64,
    /// The node animations, one for each node that is animated.
    pub channels: Vec<NodeAnim>,
}

/// A cursor over the animations of a scene.
pub type AnimationIter<'a> = Iter<'a, Animation>;

/// A cursor over the node animations of an animation.
pub type NodeAnimIter<'a> = Iter<'a, NodeAnim>;

/// A cursor over vector keys.
pub type VectorKeyIter<'a> = Iter<'a, VectorKey>;

/// A cursor over rotation keys.
pub type QuatKeyIter<'a> = Iter<'a, QuatKey>;

impl NodeAnim {
    /// Position key `id`, or `None` when there is no such key.
    pub fn get_position_key(&self, id: usize) -> (r: Option<VectorKey>)
        ensures
            r == (if id < self.position_keys@.len() {
                Some(self.position_keys@[id as int])
            } else {
                None
            }),
    {
        if id < self.position_keys.len() {
            Some(self.position_keys[id])
        } else {
            None
        }
    }

    /// Rotation key `id`, or `None` when there is no such key.
    pub fn get_rotation_key(&self, id: usize) -> (r: Option<QuatKey>)
        ensures
            r == (if id < self.rotation_keys@.len() {
                Some(self.rotation_keys@[id as int])
            } else {
                None
            }),
    {
        if id < self.rotation_keys.len() {
            Some(self.rotation_keys[id])
        } else {
            None
        }
    }

    /// Scaling key `id`, or `None` when there is no such key.
    pub fn get_scaling_key(&self, id: usize) -> (r: Option<VectorKey>)
        ensures
            r == (if id < self.scaling_keys@.len() {
                Some(self.scaling_keys@[id as int])
            } else {
                None
            }),
    {
        if id < self.scaling_keys.len() {
            Some(self.scaling_keys[id])
        } else {
            None
        }
    }
}

impl Animation {
    /// The animation of node `id`, or `None` when there is no such channel.
    pub fn get_node_anim(&self, id: usize) -> (r: Option<&NodeAnim>)
        ensures
            r == (if id < self.channels@.len() {
                Some(&self.channels@[id as int])
            } else {
                None
            }),
    {
        if id < self.channels.len() {
            Some(&self.channels[id])
        } else {
            None
        }
    }
}

} // verus!
