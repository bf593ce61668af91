//! A spatial-transform algebra for a scene graph: local (`Transform`) and
//! world-space (`GlobalTransform`) poses in two numeric widths, their
//! composition, matrix round trip and look-at construction, and the
//! conversion protocol that relates the two widths.
//!
//! The floating-point work itself is carried out by the `glam` crate behind
//! the trusted boundaries in `ops32` and `ops64`; every contract here is
//! stated over names for those operations. The algebraic laws the operators
//! realize are stated and proved exactly, over unbounded integers, in
//! `model`.
use vstd::prelude::*;

pub mod face_toward;
pub mod model;
pub mod ops32;
pub mod ops64;
pub mod precision;
pub mod transform32;
pub mod transform64;

pub use face_toward::FaceToward;
pub use precision::DefaultPrecisionConvert;
pub use precision::F32Convert;
pub use precision::F64Convert;
pub use transform32::GlobalTransform32;
pub use transform32::Transform32;
pub use transform64::GlobalTransform64;
pub use transform64::Transform64;

verus! {

/// The local-pose type at the default width of this build, which is 32 bits.
pub type Transform = Transform32;

/// The world-pose type at the default width of this build, which is 32 bits.
pub type GlobalTransform = GlobalTransform32;

/// The 3-vector at the default width of this build.
pub type TVec3 = glam::Vec3;

/// The rotation at the default width of this build.
pub type TQuat = glam::Quat;

/// The 3x3 matrix at the default width of this build.
pub type TMat3 = glam::Mat3;

/// The 4x4 matrix at the default width of this build.
pub type TMat4 = glam::Mat4;

} // verus!
