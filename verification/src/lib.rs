//! Numeric core of an offline renderer: a row-major pixel buffer and the
//! 4x4 homogeneous transforms that place cameras and geometry.
//!
//! The arithmetic is written once, over any element type that has the
//! standard operators; every contract is stated over the operators' own
//! contracts.

pub mod film;
pub mod math;
