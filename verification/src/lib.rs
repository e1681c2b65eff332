//! Exact linear algebra for graphics and geometry code: vectors, points,
//! square matrices, an affine transform, quaternions, planes, lines and
//! color values. Every number is held as an integer numerator over a
//! positive denominator, so all results are exact rationals and the
//! algebraic identities of the kernel are proved, not approximated.

pub mod line;
pub mod matrix2;
pub mod matrix3;
pub mod matrix4;
pub mod point3;
pub mod quarternion;
pub mod plane;
pub mod scalar;
pub mod transform4;
pub mod point2;
pub mod rgb;
pub mod rgb_u32;
pub mod rgb_u8;
pub mod rgba;
pub mod vector2;
pub mod vector3;
pub mod vector4;
