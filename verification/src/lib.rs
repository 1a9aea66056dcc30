//! Configuration, data model and ownership rules for importing 3D assets
//! with an import engine.
//!
//! The engine itself is out of sight here. This library holds what is decided
//! before the engine is called and after it returned: the configuration of
//! an import, the shape of the data that an import gives, and who is to free
//! a scene.

pub mod config;
pub mod export;
pub mod import;
pub mod log;
pub mod math;
pub mod postprocess;
pub mod scene;
pub mod string;

pub use import::Importer;
pub use log::LogStream;
pub use math::{Color3D, Color4D, Matrix3x3, Matrix4x4, Quaternion, Scalar, Vector2D, Vector3D};
pub use scene::{
    Animation, Camera, Face, Light, Material, Mesh, Node, NodeAnim, QuatKey, Scene, Texture,
    VectorKey,
};
pub use string::AiString;
