//! Scenes.

use super::animation::{Animation, AnimationIter};
use super::camera::{Camera, CameraIter};
use super::iter::Iter;
use super::light::{Light, LightIter};
use super::material::{Material, MaterialIter};
use super::mesh::{Mesh, MeshIter};
use super::node::{Node, NodeTree};
use super::texture::{Texture, TextureIter};
use crate::postprocess::contains;
use vstd::prelude::*;

verus! {

/// The import was incomplete: parts of the file could not be read.
pub const AI_SCENE_FLAGS_INCOMPLETE: u32 = 0x1;

/// The scene went through validation and passed.
pub const AI_SCENE_FLAGS_VALIDATED: u32 = 0x2;

/// The validation passed with warnings.
pub const AI_SCENE_FLAGS_VALIDATION_WARNING: u32 = 0x4;

/// Vertices are shared between faces.
pub const AI_SCENE_FLAGS_NON_VERBOSE_FORMAT: u32 = 0x8;

/// The scene is a terrain.
pub const AI_SCENE_FLAGS_TERRAIN: u32 = 0x10;

/// The data of an imported scene: a tree of nodes, and what the nodes and
/// meshes refer to by index.
pub struct Scene {
    flags: u32,
    graph: NodeTree,
    meshes: Vec<Mesh>,
    materials: Vec<Material>,
    animations: Vec<Animation>,
    textures: Vec<Texture>,
    lights: Vec<Light>,
    cameras: Vec<Camera>,
}

/// Whether a collection of `len` items can be counted in 32 bits.
pub open spec fn countable(len: nat) -> bool {
    len <= u32::MAX
}

impl Scene {
    #[verifier::type_invariant]
    pub closed spec fn wf(&self) -> bool {
        &&& self.graph.wf()
        &&& countable(self.meshes@.len())
        &&& countable(self.materials@.len())
        &&& countable(self.animations@.len())
        &&& countable(self.textures@.len())
        &&& countable(self.lights@.len())
        &&& countable(self.cameras@.len())
    }

    /// The flags of the scene.
    pub closed spec fn spec_flags(&self) -> u32 {
        self.flags
    }

    /// The nodes of the scene.
    pub closed spec fn graph(&self) -> NodeTree {
        self.graph
    }

    /// The meshes of the scene.
    pub closed spec fn meshes(&self) -> Seq<Mesh> {
        self.meshes@
    }

    /// The materials of the scene.
    pub closed spec fn materials(&self) -> Seq<Material> {
        self.materials@
    }

    /// The animations of the scene.
    pub closed spec fn animations(&self) -> Seq<Animation> {
        self.animations@
    }

    /// The embedded textures of the scene.
    pub closed spec fn textures(&self) -> Seq<Texture> {
        self.textures@
    }

    /// The light sources of the scene.
    pub closed spec fn lights(&self) -> Seq<Light> {
        self.lights@
    }

    /// The cameras of the scene.
    pub closed spec fn cameras(&self) -> Seq<Camera> {
        self.cameras@
    }

    /// Puts a scene together from its parts, or returns `None` when one of
    /// the collections has more items than a 32-bit count can say.
    pub fn new(
        flags: u32,
        graph: NodeTree,
        meshes: Vec<Mesh>,
        materials: Vec<Material>,
        animations: Vec<Animation>,
        textures: Vec<Texture>,
        lights: Vec<Light>,
        cameras: Vec<Camera>,
    ) -> (r: Option<Scene>)
        requires
            graph.wf(),
        ensures
            r is Some <==> countable(meshes@.len()) && countable(materials@.len()) && countable(
                animations@.len(),
            ) && countable(textures@.len()) && countable(lights@.len()) && countable(
                cameras@.len(),
            ),
            r is Some ==> {
                let s = r->0;
                &&& s.spec_flags() == flags
                &&& s.graph() == graph
                &&& s.meshes() == meshes@
                &&& s.materials() == materials@
                &&& s.animations() == animations@
                &&& s.textures() == textures@
                &&& s.lights() == lights@
                &&& s.cameras() == cameras@
            },
    {
        let max = u32::MAX as usize;
        if meshes.len() <= max && materials.len() <= max && animations.len() <= max
            && textures.len() <= max && lights.len() <= max && cameras.len() <= max {
            Some(Scene { flags, graph, meshes, materials, animations, textures, lights, cameras })
        } else {
            None
        }
    }

    /// Whether the import was incomplete.
    pub fn is_incomplete(&self) -> (r: bool)
        ensures
            r == contains(self.spec_flags(), AI_SCENE_FLAGS_INCOMPLETE),
    {
        self.flags & AI_SCENE_FLAGS_INCOMPLETE == AI_SCENE_FLAGS_INCOMPLETE
    }

    /// Whether the scene went through validation and passed.
    pub fn is_validated(&self) -> (r: bool)
        ensures
            r == contains(self.spec_flags(), AI_SCENE_FLAGS_VALIDATED),
    {
        self.flags & AI_SCENE_FLAGS_VALIDATED == AI_SCENE_FLAGS_VALIDATED
    }

    /// Whether the validation gave warnings.
    pub fn has_validation_warning(&self) -> (r: bool)
        ensures
            r == contains(self.spec_flags(), AI_SCENE_FLAGS_VALIDATION_WARNING),
    {
        self.flags & AI_SCENE_FLAGS_VALIDATION_WARNING == AI_SCENE_FLAGS_VALIDATION_WARNING
    }

    /// Whether vertices are shared between faces.
    pub fn is_non_verbose_format(&self) -> (r: bool)
        ensures
            r == contains(self.spec_flags(), AI_SCENE_FLAGS_NON_VERBOSE_FORMAT),
    {
        self.flags & AI_SCENE_FLAGS_NON_VERBOSE_FORMAT == AI_SCENE_FLAGS_NON_VERBOSE_FORMAT
    }

    /// Whether the scene is a terrain.
    pub fn is_terrain(&self) -> (r: bool)
        ensures
            r == contains(self.spec_flags(), AI_SCENE_FLAGS_TERRAIN),
    {
        self.flags & AI_SCENE_FLAGS_TERRAIN == AI_SCENE_FLAGS_TERRAIN
    }

    /// The root of the node hierarchy.
    pub fn root_node(&self) -> (r: Node)
        ensures
            *r.tree() == self.graph(),
            r.index() == 0,
    {
        proof {
            use_type_invariant(self);
        }
        self.graph.root()
    }

    /// Number of meshes.
    pub fn num_meshes(&self) -> (n: u32)
        ensures
            n == self.meshes().len(),
    {
        proof {
            use_type_invariant(self);
        }
        self.meshes.len() as u32
    }

    /// A cursor over the meshes; it yields as many as `num_meshes` says.
    pub fn mesh_iter(&self) -> (it: MeshIter)
        ensures
            it.remaining() == self.meshes(),
            it.remaining().len() == self.meshes().len(),
    {
        Iter::new(self.meshes.as_slice())
    }

    /// Mesh `id`, or `None` when the scene has no such mesh.
    pub fn mesh(&self, id: usize) -> (r: Option<&Mesh>)
        ensures
            r == (if id < self.meshes().len() {
                Some(&self.meshes()[id as int])
            } else {
                None
            }),
    {
        if id < self.meshes.len() {
            Some(&self.meshes[id])
        } else {
            None
        }
    }

    /// Number of materials.
    pub fn num_materials(&self) -> (n: u32)
        ensures
            n == self.materials().len(),
    {
        proof {
            use_type_invariant(self);
        }
        self.materials.len() as u32
    }

    /// A cursor over the materials; it yields as many as `num_materials`
    /// says.
    pub fn material_iter(&self) -> (it: MaterialIter)
        ensures
            it.remaining() == self.materials(),
            it.remaining().len() == self.materials().len(),
    {
        Iter::new(self.materials.as_slice())
    }

    /// Number of animations.
    pub fn num_animations(&self) -> (n: u32)
        ensures
            n == self.animations().len(),
    {
        proof {
            use_type_invariant(self);
        }
        self.animations.len() as u32
    }

    /// A cursor over the animations; it yields as many as `num_animations`
    /// says.
    pub fn animation_iter(&self) -> (it: AnimationIter)
        ensures
            it.remaining() == self.animations(),
            it.remaining().len() == self.animations().len(),
    {
        Iter::new(self.animations.as_slice())
    }

    /// Animation `id`, or `None` when the scene has no such animation.
    pub fn animation(&self, id: usize) -> (r: Option<&Animation>)
        ensures
            r == (if id < self.animations().len() {
                Some(&self.animations()[id as int])
            } else {
                None
            }),
    {
        if id < self.animations.len() {
            Some(&self.animations[id])
        } else {
            None
        }
    }

    /// Number of embedded textures.
    pub fn num_textures(&self) -> (n: u32)
        ensures
            n == self.textures().len(),
    {
        proof {
            use_type_invariant(self);
        }
        self.textures.len() as u32
    }

    /// A cursor over the embedded textures; it yields as many as
    /// `num_textures` says.
    pub fn texture_iter(&self) -> (it: TextureIter)
        ensures
            it.remaining() == self.textures(),
            it.remaining().len() == self.textures().len(),
    {
        Iter::new(self.textures.as_slice())
    }

    /// Number of light sources.
    pub fn num_lights(&self) -> (n: u32)
        ensures
            n == self.lights().len(),
    {
        proof {
            use_type_invariant(self);
        }
        self.lights.len() as u32
    }

    /// A cursor over the light sources; it yields as many as `num_lights`
    /// says.
    pub fn light_iter(&self) -> (it: LightIter)
        ensures
            it.remaining() == self.lights(),
            it.remaining().len() == self.lights().len(),
    {
        Iter::new(self.lights.as_slice())
    }

    /// Number of cameras.
    pub fn num_cameras(&self) -> (n: u32)
        ensures
            n == self.cameras().len(),
    {
        proof {
            use_type_invariant(self);
        }
        self.cameras.len() as u32
    }

    /// A cursor over the cameras; it yields as many as `num_cameras` says.
    pub fn camera_iter(&self) -> (it: CameraIter)
        ensures
            it.remaining() == self.cameras(),
            it.remaining().len() == self.cameras().len(),
    {
        Iter::new(self.cameras.as_slice())
    }
}

} // verus!
