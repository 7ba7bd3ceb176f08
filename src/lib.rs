//! A Pong simulation core: world state, input mapping, motion, collision,
//! scoring and the per-frame round controller.
//!
//! Lengths are fixed-point integers in micro-units (one arena unit is
//! `UNIT` = 1_000_000 micro-units), time is in milliseconds and velocities are
//! in micro-units per millisecond, so a speed of one arena unit per second is
//! `1_000`. With these units every step of the simulation is exact.
pub mod geometry;
pub mod entities;
pub mod physics;
pub mod scoring;
pub mod round;
pub mod laws;

pub use entities::{Ball, Camera, Paddle, Score, Side};
pub use round::{Input, Phase, Pong, Trans, World};
