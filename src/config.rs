//! Run-time configuration of the flock: arena bounds, steering tunables and
//! the boundary policy, with the start-up validation of those values.
use vstd::prelude::*;

use crate::constants::{
    COHERENCE_FACTOR, HEIGHT, MAX_PROXIMAL_BOIDS, MAX_SPEED, SCALE_PERMILLE, SEPARATION_FACTOR,
    WIDTH,
};

verus! {

/// What happens to an agent that leaves the arena.
#[derive(Clone, Copy, Debug, PartialEq, Eq, Structural)]
pub enum Boundary {
    /// It re-enters from the opposite edge.
    Wrap,
    /// Both components of its velocity are inverted.
    Reflect,
}

/// Arena bounds and steering tunables, fixed for a run.
#[derive(Clone, Copy, Debug, PartialEq, Eq, Structural)]
pub struct Config {
    /// Arena width in units; positions lie in `[0, width)`.
    pub width: i32,
    /// Arena height in units; positions lie in `[0, height)`.
    pub height: i32,
    /// Distance under which neighbours repel, in units.
    pub separation_factor: i32,
    /// Divisor of the pull toward the neighbours' centroid.
    pub coherence_factor: i32,
    /// Number of nearest neighbours considered.
    pub max_proximal_boids: u32,
    /// Global force multiplier, in thousandths.
    pub scale_permille: i32,
    /// Largest speed along either axis, in units per second.
    pub max_speed: i32,
    pub boundary: Boundary,
}

/// A configuration that cannot run.
#[derive(Clone, Copy, Debug, PartialEq, Eq, Structural)]
pub enum ConfigError {
    /// The arena has no positive width or height.
    EmptyArena,
    /// A tunable is out of its range: negative separation, scale or speed, or
    /// a coherence divisor that is not positive.
    InvalidParameter,
    /// At least as many neighbours are asked for as there are agents.
    TooManyNeighbours,
}

impl Config {
    /// The tunables are in their ranges and the arena is not empty.
    pub open spec fn valid(&self) -> bool {
        &&& self.width > 0
        &&& self.height > 0
        &&& self.separation_factor >= 0
        &&& self.coherence_factor > 0
        &&& self.scale_permille >= 0
        &&& self.max_speed >= 0
    }

    /// What [`Config::check`] answers for a population of `population` agents.
    pub open spec fn check_result(&self, population: int) -> Result<(), ConfigError> {
        if self.width <= 0 || self.height <= 0 {
            Err(ConfigError::EmptyArena)
        } else if !self.valid() {
            Err(ConfigError::InvalidParameter)
        } else if self.max_proximal_boids >= population {
            Err(ConfigError::TooManyNeighbours)
        } else {
            Ok(())
        }
    }

    /// The library's default tunables with the given boundary policy.
    pub fn standard(boundary: Boundary) -> (r: Config)
        ensures
            r.valid(),
            r.width == WIDTH,
            r.height == HEIGHT,
            r.separation_factor == SEPARATION_FACTOR,
            r.coherence_factor == COHERENCE_FACTOR,
            r.max_proximal_boids == MAX_PROXIMAL_BOIDS,
            r.scale_permille == SCALE_PERMILLE,
            r.max_speed == MAX_SPEED,
            r.boundary == boundary,
    {
        Config {
            width: WIDTH,
            height: HEIGHT,
            separation_factor: SEPARATION_FACTOR,
            coherence_factor: COHERENCE_FACTOR,
            max_proximal_boids: MAX_PROXIMAL_BOIDS,
            scale_permille: SCALE_PERMILLE,
            max_speed: MAX_SPEED,
            boundary,
        }
    }

    /// Validates the configuration for a population of `population` agents.
    pub fn check(&self, population: usize) -> (r: Result<(), ConfigError>)
        ensures
            r == self.check_result(population as int),
            r is Ok <==> self.valid() && (self.max_proximal_boids as int) < population,
    {
        if self.width <= 0 || self.height <= 0 {
            Err(ConfigError::EmptyArena)
        } else if self.separation_factor < 0 || self.coherence_factor <= 0 || self.scale_permille
            < 0 || self.max_speed < 0 {
            Err(ConfigError::InvalidParameter)
        } else if self.max_proximal_boids as usize >= population {
            Err(ConfigError::TooManyNeighbours)
        } else {
            Ok(())
        }
    }
}

} // verus!
