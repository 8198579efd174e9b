//! The dual forms of the flat and round objects.

pub mod line;
pub mod plane;
pub mod sphere;

pub use line::DLine;
pub use plane::DPlane;
pub use sphere::DSphere;
