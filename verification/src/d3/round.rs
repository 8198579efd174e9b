//! Round objects: points, pairs of points, circles and spheres.

pub mod circle;
pub mod pair;
pub mod point;
pub mod sphere;

pub use circle::Circle;
pub use pair::Pair;
pub use point::origin;
pub use point::Point;
pub use sphere::Sphere;
