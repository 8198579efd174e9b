//! Contains definitions for standard Euclidean geometric objects, namely vectors, bivectors, etc.

pub mod bivector;
pub mod trivector;
pub mod vector;

pub use bivector::Bivector;
pub use trivector::Trivector;
pub use vector::Vector;
