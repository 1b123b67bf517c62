//! Exact collision tests and ray casts for axis-aligned rectangles in the plane.
//!
//! Coordinates are integers on a grid whose unit the caller chooses (a
//! thousandth of a world unit, a sub-pixel, ...). Halving a size can leave the
//! grid, so every quantity derived from half-extents (an interval bound, a
//! penetration depth, a resolve vector) is given in half-units: twice its value
//! in grid units. Ray times and impact points are exact fractions. No result is
//! rounded.

pub mod collision;
pub mod mesh;
pub mod shape;
pub mod time;
