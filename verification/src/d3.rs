//! The compact objects of three-dimensional conformal geometry.

pub mod centre;
pub mod direction;
pub mod distance;
pub mod dual;
pub mod duality;
pub mod flat;
pub mod free;
pub mod motion;
pub mod pairs;
pub mod round;
pub mod shortcuts;
pub mod tangent;
pub mod transform;

pub use flat::Line;
pub use flat::Plane;
pub use round::Circle;
pub use round::Pair;
pub use round::Point;
pub use round::Sphere;
pub use transform::Transform;
