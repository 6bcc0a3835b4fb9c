//! Flocking ("boids") simulation core on fixed-point integer coordinates.
//!
//! Positions are integers in a fixed-point unit (see [`constants::UNIT`]),
//! velocities are in units per second and elapsed time is in microseconds.
//! Every value that is stored back into a coordinate saturates at the range
//! of `i32`.
pub mod arith;
pub mod components;
pub mod config;
pub mod constants;
pub mod flocking;
pub mod movement;
pub mod ranking;
pub mod simulation;
