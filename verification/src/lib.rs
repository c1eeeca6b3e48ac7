//! Robust orientation predicates over exact integer coordinates.
//!
//! Given reference points and a query point, each predicate reports the sign
//! of the orientation determinant: whether the query point lies on one side
//! of a directed line (planar case) or of a directed plane (spatial case),
//! or exactly on it. The determinant is computed exactly, so the reported
//! sign is always the true mathematical sign — the failure mode where a
//! rounded estimate flips the sign near a degenerate configuration cannot
//! occur.

pub mod orientation;
pub mod point;

pub use orientation::{orientation_2d, orientation_2d_checked, orientation_3d, orientation_3d_checked};
pub use point::{Point2, Point3, MAX_COORD_2D, MAX_COORD_3D};
