//! The records that make up the world: ball, paddles, score and camera.
use vstd::prelude::*;
use crate::geometry::{ARENA_HEIGHT, ARENA_WIDTH, MAX_SPEED};

verus! {

/// Radius of the ball, in micro-units (2 arena units).
pub const BALL_RADIUS: i64 = 2_000_000;

/// Speed of a freshly served ball, in micro-units per millisecond
/// (1 arena unit per second).
pub const BALL_SPEED: i64 = 1_000;

/// Restitution is stored in thousandths: `RESTITUTION_SCALE` is fully elastic.
pub const RESTITUTION_SCALE: i64 = 1_000;

/// Height of a paddle, in micro-units (16 arena units).
pub const PADDLE_HEIGHT: i64 = 16_000_000;

/// Width of a paddle, in micro-units (4 arena units).
pub const PADDLE_WIDTH: i64 = 4_000_000;

/// Vertical speed of a steered paddle, in micro-units per millisecond
/// (1.2 arena units per second).
pub const PADDLE_SPEED: i64 = 1_200;

/// The side of the arena that a paddle defends.
#[derive(Clone, Copy, Debug, PartialEq, Eq, Structural)]
pub enum Side {
    Left,
    Right,
}

/// The ball: centre position, size, bounce factor, velocity and whether a
/// collision was resolved for it in the current frame.
#[derive(Clone, Copy, Debug, PartialEq, Eq, Structural)]
pub struct Ball {
    pub x: i64,
    pub y: i64,
    pub radius: i64,
    /// Thousandths of the incoming horizontal speed kept after a paddle hit.
    pub restitution: i64,
    pub vx: i64,
    pub vy: i64,
    pub in_contact: bool,
}

/// A paddle: its side, size, centre position and vertical velocity.
#[derive(Clone, Copy, Debug, PartialEq, Eq, Structural)]
pub struct Paddle {
    pub side: Side,
    pub width: i64,
    pub height: i64,
    pub x: i64,
    pub y: i64,
    pub vy: i64,
}

/// Goals scored by each side.
#[derive(Clone, Copy, Debug, PartialEq, Eq, Structural)]
pub struct Score {
    pub right_score: u64,
    pub left_score: u64,
}

/// The orthographic view onto the arena, as its four bounds in micro-units.
#[derive(Clone, Copy, Debug, PartialEq, Eq, Structural)]
pub struct Camera {
    pub left: i64,
    pub right: i64,
    pub top: i64,
    pub bottom: i64,
}

pub open spec fn speed_ok(v: int) -> bool {
    -MAX_SPEED <= v <= MAX_SPEED
}

impl Ball {
    /// The ball's fields are in the ranges the simulation works with, and its
    /// centre lies in the arena.
    pub open spec fn wf(self) -> bool {
        &&& 0 <= self.radius <= ARENA_HEIGHT / 2
        &&& 0 <= self.restitution <= RESTITUTION_SCALE
        &&& speed_ok(self.vx as int)
        &&& speed_ok(self.vy as int)
        &&& 0 <= self.x <= ARENA_WIDTH
        &&& 0 <= self.y <= ARENA_HEIGHT
    }

    /// The ball as a round starts: at the centre of the arena, fully
    /// elastic, moving along +x at `BALL_SPEED`, touching nothing.
    pub open spec fn initial() -> Ball {
        Ball {
            x: (ARENA_WIDTH / 2) as i64,
            y: (ARENA_HEIGHT / 2) as i64,
            radius: BALL_RADIUS,
            restitution: RESTITUTION_SCALE,
            vx: BALL_SPEED,
            vy: 0,
            in_contact: false,
        }
    }

    /// A ball at the centre of the arena, moving along +x at `BALL_SPEED`.
    pub fn new() -> (b: Ball)
        ensures
            b == Ball::initial(),
            b.wf(),
    {
        Ball {
            x: ARENA_WIDTH / 2,
            y: ARENA_HEIGHT / 2,
            radius: BALL_RADIUS,
            restitution: RESTITUTION_SCALE,
            vx: BALL_SPEED,
            vy: 0,
            in_contact: false,
        }
    }
}

/// The x position of the centre of the paddle that defends `side`: half a
/// paddle width in from that side's edge.
pub open spec fn paddle_home_x(side: Side) -> int {
    match side {
        Side::Left => PADDLE_WIDTH / 2,
        Side::Right => ARENA_WIDTH - PADDLE_WIDTH / 2,
    }
}

impl Paddle {
    /// Lowest centre position that keeps the paddle inside the arena.
    pub open spec fn min_y(self) -> int {
        self.height / 2
    }

    /// Highest centre position that keeps the paddle inside the arena.
    pub open spec fn max_y(self) -> int {
        ARENA_HEIGHT - self.height / 2
    }

    /// The paddle's fields are in the ranges the simulation works with, and
    /// it lies vertically inside the arena.
    pub open spec fn wf(self) -> bool {
        &&& 0 <= self.width <= ARENA_WIDTH
        &&& 0 <= self.height <= ARENA_HEIGHT
        &&& 0 <= self.x <= ARENA_WIDTH
        &&& self.min_y() <= self.y <= self.max_y()
        &&& speed_ok(self.vy as int)
    }

    /// The paddle for `side` as a round starts: standard size, resting,
    /// centred vertically at its side's edge.
    pub open spec fn initial(side: Side) -> Paddle {
        Paddle {
            side,
            width: PADDLE_WIDTH,
            height: PADDLE_HEIGHT,
            x: paddle_home_x(side) as i64,
            y: (ARENA_HEIGHT / 2) as i64,
            vy: 0,
        }
    }

    /// A resting paddle of the standard size for `side`, centred vertically
    /// at its side's edge.
    pub fn new(side: Side) -> (p: Paddle)
        ensures
            p == Paddle::initial(side),
            p.wf(),
    {
        let x = match side {
            Side::Left => PADDLE_WIDTH / 2,
            Side::Right => ARENA_WIDTH - PADDLE_WIDTH / 2,
        };
        Paddle { side, width: PADDLE_WIDTH, height: PADDLE_HEIGHT, x, y: ARENA_HEIGHT / 2, vy: 0 }
    }
}

impl Score {
    /// A score of nil to nil.
    pub fn new() -> (s: Score)
        ensures
            s.left_score == 0,
            s.right_score == 0,
    {
        Score { right_score: 0, left_score: 0 }
    }

    /// Goals scored so far by both sides together.
    pub open spec fn total(self) -> int {
        self.left_score + self.right_score
    }
}

impl Camera {
    /// A camera whose view covers exactly the arena.
    pub fn new() -> (c: Camera)
        ensures
            c.left == 0,
            c.right == ARENA_WIDTH,
            c.top == ARENA_HEIGHT,
            c.bottom == 0,
    {
        Camera { left: 0, right: ARENA_WIDTH, top: ARENA_HEIGHT, bottom: 0 }
    }
}

} // verus!
