//! Tangent objects: a direction or a plane element fixed at a point.

pub mod bivector;
pub mod vector;

pub use bivector::TBivector;
pub use vector::TVector;
