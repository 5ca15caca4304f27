//! Fixed-size single-precision linear algebra: vectors, square matrices,
//! a 3D bivector, and a rotor type.
//!
//! Every scalar is an IEEE-754 binary32 value carried by its bit pattern,
//! so that the layout and data flow of every operation is verified; the
//! four rounding arithmetic operations and the square root are performed
//! by the `softfp` crate behind trusted wrappers.

pub mod scalar;
pub mod vec2;
pub mod vec3;
pub mod vec4;
pub mod mat2;
pub mod mat3;
pub mod mat4;
pub mod bivec;
pub mod rotor;

pub use scalar::Scalar;
pub use vec2::Vec2;
pub use vec3::Vec3;
pub use vec4::Vec4;
pub use mat2::Mat2;
pub use mat3::Mat3;
pub use mat4::Mat4;
pub use bivec::Bivec3;
pub use rotor::Rot;
