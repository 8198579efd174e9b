//! Flat objects: those that pass through infinity.

pub mod line;
pub mod plane;
pub mod point;

pub use line::Line;
pub use plane::Plane;
pub use point::FPoint;
