//! Scalars, vectors and 4x4 transforms.

pub mod scalar;
pub mod vector3;
pub mod vector4;
pub mod matrix4;
pub mod grid;
pub mod laws;
