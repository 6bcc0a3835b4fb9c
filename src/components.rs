//! The agents' data: positions, velocities, the flock marker, and the
//! distance metric between positions.
use vstd::prelude::*;

use crate::arith::{fit, fit_i32, scale_by, scale_i128};
use crate::constants::SCALE_PERMILLE;
use std::cmp::Ordering;

verus! {

/// A velocity in units per second.
#[derive(Clone, Copy, Debug, PartialEq, Eq, Structural, Hash)]
pub struct Velocity {
    pub x: i32,
    pub y: i32,
}

impl Velocity {
    /// A velocity from raw components, scaled by the global force multiplier
    /// `SCALE_PERMILLE`.
    pub fn new(x: i32, y: i32) -> (r: Velocity)
        ensures
            r.x == fit(scale_by(x as int, SCALE_PERMILLE as int)),
            r.y == fit(scale_by(y as int, SCALE_PERMILLE as int)),
    {
        Velocity {
            x: fit_i32(scale_i128(x as i128, SCALE_PERMILLE)),
            y: fit_i32(scale_i128(y as i128, SCALE_PERMILLE)),
        }
    }
}

/// A position in fixed-point units.
#[derive(Clone, Copy, Debug, PartialEq, Eq, Structural, Hash)]
pub struct Position {
    pub x: i32,
    pub y: i32,
}

/// Squared Euclidean distance between two positions.
pub open spec fn dist_sq(a: Position, b: Position) -> int {
    (a.x - b.x) * (a.x - b.x) + (a.y - b.y) * (a.y - b.y)
}

/// `r` is the Euclidean distance `sqrt(d)` rounded down.
pub open spec fn is_floor_sqrt(r: int, d: int) -> bool {
    0 <= r && r * r <= d < (r + 1) * (r + 1)
}

/// The ordering of two integers.
pub open spec fn cmp_int(a: int, b: int) -> Ordering {
    if a < b {
        Ordering::Less
    } else if a == b {
        Ordering::Equal
    } else {
        Ordering::Greater
    }
}

/// The largest squared distance between two positions.
pub proof fn lemma_dist_sq_bounds(a: Position, b: Position)
    ensures
        0 <= dist_sq(a, b) <= 0x2_0000_0000_0000_0000,
{
    let dx = a.x - b.x;
    let dy = a.y - b.y;
    assert(0 <= dx * dx <= 0x1_0000_0000_0000_0000) by (nonlinear_arith)
        requires
            -0x1_0000_0000 <= dx <= 0x1_0000_0000,
    ;
    assert(0 <= dy * dy <= 0x1_0000_0000_0000_0000) by (nonlinear_arith)
        requires
            -0x1_0000_0000 <= dy <= 0x1_0000_0000,
    ;
}

/// Against a non-negative threshold `s`, the rounded-down distance and the
/// squared distance agree: `floor(sqrt(d)) < s` exactly when `d < s * s`.
pub proof fn lemma_floor_sqrt_below(r: int, d: int, s: int)
    requires
        is_floor_sqrt(r, d),
        s >= 0,
    ensures
        r < s <==> d < s * s,
{
    if r < s {
        assert((r + 1) * (r + 1) <= s * s) by (nonlinear_arith)
            requires
                0 <= r + 1 <= s,
        ;
    } else {
        assert(s * s <= r * r) by (nonlinear_arith)
            requires
                0 <= s <= r,
        ;
    }
}

/// Squared distance, computed exactly.
pub fn squared_distance(a: &Position, b: &Position) -> (r: u128)
    ensures
        r as int == dist_sq(*a, *b),
{
    proof {
        lemma_dist_sq_bounds(*a, *b);
    }
    let dx: i128 = a.x as i128 - b.x as i128;
    let dy: i128 = a.y as i128 - b.y as i128;
    proof {
        assert(0 <= dx * dx <= 0x1_0000_0000_0000_0000) by (nonlinear_arith)
            requires
                -0x1_0000_0000 <= dx <= 0x1_0000_0000,
        ;
        assert(0 <= dy * dy <= 0x1_0000_0000_0000_0000) by (nonlinear_arith)
            requires
                -0x1_0000_0000 <= dy <= 0x1_0000_0000,
        ;
    }
    (dx * dx + dy * dy) as u128
}

/// `sqrt(d)` rounded down, by bisection.
pub fn floor_sqrt(d: u128) -> (r: i64)
    requires
        d <= 0x2_0000_0000_0000_0000,
    ensures
        is_floor_sqrt(r as int, d as int),
{
    let mut lo: u128 = 0;
    let mut hi: u128 = 0x4_0000_0000;
    assert(hi * hi == 0x10_0000_0000_0000_0000);
    while hi - lo > 1
        invariant
            lo < hi <= 0x4_0000_0000,
            lo * lo <= d < hi * hi,
        decreases hi - lo,
    {
        let mid: u128 = lo + (hi - lo) / 2;
        assert(mid * mid <= 0x10_0000_0000_0000_0000) by (nonlinear_arith)
            requires
                mid <= 0x4_0000_0000,
        ;
        if mid * mid <= d {
            lo = mid;
        } else {
            hi = mid;
        }
    }
    assert(hi == lo + 1);
    lo as i64
}

impl Position {
    pub fn new(x: i32, y: i32) -> (r: Position)
        ensures
            r == (Position { x, y }),
    {
        Position { x, y }
    }

    /// Compares the distances from `self` to `pos_a` and to `pos_b`.
    ///
    /// Squared distances give the same order as distances, so no square root
    /// is taken.
    pub fn distance(&self, pos_a: &Position, pos_b: &Position) -> (r: Ordering)
        ensures
            r == cmp_int(dist_sq(*self, *pos_a), dist_sq(*self, *pos_b)),
    {
        let da = squared_distance(self, pos_a);
        let db = squared_distance(self, pos_b);
        if da < db {
            Ordering::Less
        } else if da == db {
            Ordering::Equal
        } else {
            Ordering::Greater
        }
    }

    /// The Euclidean distance from `self` to `pos_a`, rounded down to a whole
    /// unit.
    pub fn distance_to(&self, pos_a: &Position) -> (r: i64)
        ensures
            is_floor_sqrt(r as int, dist_sq(*self, *pos_a)),
    {
        proof {
            lemma_dist_sq_bounds(*self, *pos_a);
        }
        floor_sqrt(squared_distance(self, pos_a))
    }
}

/// Marks an agent that takes part in flocking.
#[derive(Clone, Copy, Debug, PartialEq, Eq, Structural)]
pub struct Boid {}

impl Boid {
    pub fn new() -> (r: Boid)
        ensures
            r == (Boid {}),
    {
        Boid {}
    }
}

/// One member of the population.
#[derive(Clone, Copy, Debug, PartialEq, Eq, Structural)]
pub struct Agent {
    pub position: Position,
    pub velocity: Velocity,
    pub is_boid: bool,
}

/// Time elapsed since the previous tick, in microseconds.
#[derive(Clone, Copy, Debug, PartialEq, Eq, Structural, Default)]
pub struct DeltaTime(pub u32);

} // verus!
