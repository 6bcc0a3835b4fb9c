use vstd::prelude::*;

verus! {

/// Fixed-point units in one arena cell.
pub const UNIT: i32 = 1000;

/// Arena width, in units (150 cells).
pub const WIDTH: i32 = 150_000;

/// Arena height, in units (100 cells).
pub const HEIGHT: i32 = 100_000;

/// Global force multiplier, in thousandths (1.3).
pub const SCALE_PERMILLE: i32 = 1300;

/// Distance under which two agents repel each other, in units.
pub const SEPARATION_FACTOR: i32 = 3000;

/// Divisor of the pull toward the neighbours' centroid.
pub const COHERENCE_FACTOR: i32 = 9;

/// Number of nearest neighbours that steer an agent.
pub const MAX_PROXIMAL_BOIDS: u32 = 10;

/// Largest speed along either axis, in units per second.
pub const MAX_SPEED: i32 = 3000;

/// Bound of the raw velocities drawn at spawn time, in units per second.
pub const SPAWN_SPEED: i32 = 3000;

/// Microseconds in one second.
pub const MICROS_PER_SECOND: i128 = 1_000_000;

/// Thousandths in one.
pub const PERMILLE: i128 = 1000;

} // verus!
