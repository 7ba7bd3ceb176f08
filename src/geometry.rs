//! Units, arena constants and integer helpers shared by the simulation.
use vstd::prelude::*;

verus! {

/// One arena unit, in micro-units.
pub const UNIT: i64 = 1_000_000;

/// Height of the arena, in micro-units (100 arena units).
pub const ARENA_HEIGHT: i64 = 100_000_000;

/// Width of the arena, in micro-units (100 arena units).
pub const ARENA_WIDTH: i64 = 100_000_000;

/// Largest speed component that a ball or paddle may carry, in micro-units
/// per millisecond.
pub const MAX_SPEED: i64 = 1_000_000_000;

/// Longest frame accepted by the simulation, in milliseconds.
pub const MAX_FRAME_MS: i64 = 1_000_000_000;

/// Bound on a ball coordinate between motion and collision resolution.
pub const FLIGHT_BOUND: i64 = 2_000_000_000_000_000_000;

/// Bound on a coordinate that lies in or near the arena.
pub const NEAR_BOUND: i64 = 1_000_000_000;

/// `v` limited to the closed range `[lo, hi]`.
pub open spec fn clamp(v: int, lo: int, hi: int) -> int {
    if v < lo {
        lo
    } else if v > hi {
        hi
    } else {
        v
    }
}

pub open spec fn abs(v: int) -> int {
    if v < 0 {
        -v
    } else {
        v
    }
}

/// Absolute value of a speed component.
pub fn speed_magnitude(v: i64) -> (r: i64)
    requires
        -MAX_SPEED <= v <= MAX_SPEED,
    ensures
        r == abs(v as int),
{
    if v < 0 {
        -v
    } else {
        v
    }
}

/// Distance between two coordinates on one axis.
pub fn distance(a: i64, b: i64) -> (r: i64)
    requires
        -FLIGHT_BOUND <= a <= FLIGHT_BOUND,
        -NEAR_BOUND <= b <= NEAR_BOUND,
    ensures
        r == abs(a - b),
{
    if a < b {
        b - a
    } else {
        a - b
    }
}

/// Limits `v` to `[lo, hi]`.
pub fn clamp_i64(v: i64, lo: i64, hi: i64) -> (r: i64)
    requires
        lo <= hi,
    ensures
        r == clamp(v as int, lo as int, hi as int),
        lo <= r <= hi,
{
    if v < lo {
        lo
    } else if v > hi {
        hi
    } else {
        v
    }
}

/// The elapsed time that a frame integrates over: a negative `dt` is taken
/// as zero.
pub open spec fn frame_time(dt: int) -> int {
    if dt < 0 {
        0
    } else {
        dt
    }
}

/// Turns the elapsed time reported by the host into the time that the frame
/// integrates over; a negative value becomes zero.
pub fn sanitize_dt(dt: i64) -> (r: i64)
    ensures
        r == frame_time(dt as int),
        r >= 0,
{
    if dt < 0 {
        0
    } else {
        dt
    }
}

} // verus!
