//! Kinematic core of a small arcade simulation: bodies moving in a
//! rectangular world whose edges wrap around (a torus).
//!
//! All world quantities are fixed-point integers: a coordinate, a velocity
//! component or an angle is stored as an `i64` holding thousandths of the
//! corresponding unit (pixels, pixels per tick, radians). The host layer
//! converts to and from its own floating-point values at the boundary.

pub mod asteroid;
pub mod render;
pub mod rng;
pub mod ship;
pub mod util;
pub mod world;

use vstd::prelude::*;

verus! {

/// Fixed-point scale: one world unit is this many stored units.
pub const SCALE: i64 = 1000;

/// A full turn (two pi radians) in fixed-point angle units.
pub const TAU: i64 = 6283;

/// Bound on the magnitude of any coordinate or velocity component the
/// simulation promises to handle without `i64` overflow.
pub const COORD_LIMIT: i64 = 1_000_000_000_000;

} // verus!
