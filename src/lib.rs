//! Polyline approximation of points, line segments and circular arcs.
//!
//! The floating-point geometry (angles, the chord/sagitta relation, points on
//! a circle) lives with the caller; this crate holds the decisions that shape
//! the result: how many equal angular steps an arc is cut into, the single-pass
//! cursor that walks those steps in curve order, and the exact approximations
//! of points and line segments.
use vstd::prelude::*;

pub mod approximate;
pub mod laws;
pub mod subdivision;

pub use approximate::{approximate_line, approximate_point, ApproximatedArc};
pub use subdivision::arc_step_count;
