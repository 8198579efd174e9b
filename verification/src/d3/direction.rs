//! Directions: what is left of a line when its position is forgotten.

pub mod vector;

pub use vector::DVector;
