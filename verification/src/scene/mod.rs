//! The data of an imported scene, and the rules of its ownership.

pub mod animation;
pub mod camera;
pub mod face;
pub mod iter;
pub mod light;
pub mod material;
pub mod mesh;
pub mod node;
pub mod ownership;
pub mod scene;
pub mod texture;

pub use self::animation::{
    Animation, AnimationIter, NodeAnim, NodeAnimIter, QuatKey, QuatKeyIter, VectorKey,
    VectorKeyIter,
};
pub use self::camera::{Camera, CameraIter};
pub use self::face::{Face, FaceIter};
pub use self::iter::Iter;
pub use self::light::{Light, LightIter};
pub use self::material::{Material, MaterialIter};
pub use self::mesh::{Mesh, MeshIter};
pub use self::node::{Node, NodeIter, NodeTree};
pub use self::ownership::{PostProcessError, ReleaseCall, SceneHandle, SceneKind};
pub use self::scene::Scene;
pub use self::texture::{Texture, TextureIter};
