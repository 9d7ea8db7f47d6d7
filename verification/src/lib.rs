//! Vectors of two, three and four components and square matrices of the same
//! sizes, with the operators and the free functions that shading languages
//! give them.
//!
//! The component type is a parameter: everything here is stated and proved
//! over any type that has the arithmetic of [`scalar::Real`]. A contract says
//! which operations are applied to which components and in what order, so it
//! holds bit for bit of every component type whose operations are functions
//! of their operands.

pub mod functions;
pub mod matrices;
pub mod scalar;
pub mod vectors;
