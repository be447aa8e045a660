//! Support mappings for convex shapes.
//!
//! A *support mapping* answers, for a convex shape in a given pose, the
//! question "which of my points extends furthest in a given direction?".
//! This single query is the primitive that convex proximity algorithms
//! (separating-axis search, iterative distance computation, penetration
//! resolution) are built on.
//!
//! The crate fixes an exact integer model of the geometry: points and
//! directions are [`vec3::Vec3`] values, poses are [`transform::Transform`]
//! values, and the extremality of a support point is stated over integer dot
//! products, so every contract is exact rather than approximate.

pub mod cuboid;
pub mod dir3;
pub mod polytope;
pub mod support_map;
pub mod transform;
pub mod vec3;
