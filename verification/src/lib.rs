//! Narrow-phase collision detection on an integer lattice.
//!
//! Every shape is described by `i64` lattice coordinates. Whether two shapes
//! touch is decided exactly; lengths that are irrational are rounded to whole
//! lattice units in a direction that each function documents. A contact
//! reports the unit normal where the lattice can hold it, along a coordinate
//! axis, and otherwise an exact direction with its squared length.
//!
//! How large coordinates may be follows from what a query computes: boxes,
//! circles, spheres and cylinders among themselves range over `RANGE_MAX`,
//! and everything tested against a plane, a triangle or a capsule lies in
//! the world cube of `COORD_MAX`.
pub mod collision2d;
pub mod collision3d;
pub mod collision_resolution;
pub mod laws;
pub mod scalar;
pub mod segment;
pub mod vector;

pub use scalar::{
    ceil_sqrt, div_ceil, div_floor, floor_sqrt, is_zero, isqrt, isqrt_ceil, n_max, n_min,
    COORD_MAX, RANGE_MAX,
};
pub use vector::{Vector2, Vector3, V2, V3};
pub use collision_resolution::CollisionResolution;
pub use segment::{closest_to_segment, segment_distance_squared};
