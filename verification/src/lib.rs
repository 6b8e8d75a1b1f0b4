//! A small 3D math kernel: 2D/3D vectors, a quaternion orientation carrier,
//! and orthonormal basis construction under right- and left-handed
//! conventions.
//!
//! Every scalar is an IEEE-754 binary32 value carried as its bit pattern;
//! arithmetic is done by softfloat routines on the pattern, so results are
//! the IEEE-754 results bit for bit.

pub mod conventions;
pub mod quat;
pub mod scalar;
pub mod vec2;
pub mod vec3;

pub use conventions::Axes;
pub use quat::Quat;
pub use scalar::Scalar;
pub use vec2::Vec2;
pub use vec3::Vec3;
