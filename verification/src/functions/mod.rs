//! The free functions on vectors and matrices.

pub mod geometric;
pub mod matrix;
pub mod transform;

pub use geometric::{cross, distance, dot, faceForward, length, normalize, reflect, refract};
pub use matrix::{inverse, matrixCompMult, outerProduct, transpose};
pub use transform::lookAt;
