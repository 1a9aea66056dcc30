//! Primitive math types: vectors, colours, quaternions and matrices.
//!
//! Components are [`Scalar`] values. The types here only store and rearrange
//! components; none of them does arithmetic.

pub mod color3;
pub mod color4;
pub mod matrix3;
pub mod matrix4;
pub mod quaternion;
pub mod scalar;
pub mod vector2;
pub mod vector3;







pub use self::scalar::{Scalar, Scalar64};

pub use self::vector3::{Vector3D, Vector3DIter};
pub use self::color3::Color3D;
pub use self::color4::Color4D;
pub use self::quaternion::Quaternion;
pub use self::vector2::Vector2D;
pub use self::matrix3::Matrix3x3;
pub use self::matrix4::Matrix4x4;
