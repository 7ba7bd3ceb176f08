//! Input mapping, motion integration and collision resolution.
use vstd::prelude::*;
use crate::entities::{speed_ok, Ball, Paddle, Side, PADDLE_SPEED, RESTITUTION_SCALE};
use crate::geometry::{
    abs, clamp, clamp_i64, distance, speed_magnitude, ARENA_HEIGHT, FLIGHT_BOUND, MAX_FRAME_MS,
    MAX_SPEED,
};

verus! {

/// The vertical velocity asked for by the up and down keys of one side:
/// up alone climbs, down alone descends, both or neither hold still.
pub open spec fn steer(up: bool, down: bool) -> int {
    if up && !down {
        PADDLE_SPEED as int
    } else if down && !up {
        -PADDLE_SPEED
    } else {
        0
    }
}

/// Maps the up and down keys of one side to a paddle velocity.
pub fn paddle_velocity(up: bool, down: bool) -> (v: i64)
    ensures
        v == steer(up, down),
{
    if up && !down {
        PADDLE_SPEED
    } else if down && !up {
        -PADDLE_SPEED
    } else {
        0
    }
}

impl Paddle {
    /// The paddle after `dt` milliseconds of motion, kept inside the arena.
    pub open spec fn advanced(self, dt: int) -> Paddle {
        Paddle { y: clamp(self.y + self.vy * dt, self.min_y(), self.max_y()) as i64, ..self }
    }

    /// Moves the paddle by its velocity over `dt` milliseconds, then clamps it
    /// to the arena. The velocity is left as it is.
    pub fn advance(&mut self, dt: i64)
        requires
            old(self).wf(),
            0 <= dt <= MAX_FRAME_MS,
        ensures
            *final(self) == old(self).advanced(dt as int),
            final(self).wf(),
            final(self).min_y() <= final(self).y <= final(self).max_y(),
            final(self).x == old(self).x,
    {
        assert(-MAX_FRAME_MS * MAX_SPEED <= self.vy * dt <= MAX_FRAME_MS * MAX_SPEED) by (nonlinear_arith)
            requires
                speed_ok(self.vy as int),
                0 <= dt <= MAX_FRAME_MS,
        ;
        let lo = self.height / 2;
        let hi = ARENA_HEIGHT - self.height / 2;
        let target = self.y + self.vy * dt;
        self.y = clamp_i64(target, lo, hi);
    }
}

impl Ball {
    /// The ball after `dt` milliseconds of free flight.
    pub open spec fn moved(self, dt: int) -> Ball {
        Ball { x: (self.x + self.vx * dt) as i64, y: (self.y + self.vy * dt) as i64, ..self }
    }

    /// Moves the ball by its velocity over `dt` milliseconds.
    pub fn advance(&mut self, dt: i64)
        requires
            old(self).wf(),
            0 <= dt <= MAX_FRAME_MS,
        ensures
            *final(self) == old(self).moved(dt as int),
            final(self).x == old(self).x + old(self).vx * dt,
            final(self).y == old(self).y + old(self).vy * dt,
            in_flight(*final(self)),
    {
        assert(-MAX_FRAME_MS * MAX_SPEED <= self.vx * dt <= MAX_FRAME_MS * MAX_SPEED) by (nonlinear_arith)
            requires
                speed_ok(self.vx as int),
                0 <= dt <= MAX_FRAME_MS,
        ;
        assert(-MAX_FRAME_MS * MAX_SPEED <= self.vy * dt <= MAX_FRAME_MS * MAX_SPEED) by (nonlinear_arith)
            requires
                speed_ok(self.vy as int),
                0 <= dt <= MAX_FRAME_MS,
        ;
        self.x = self.x + self.vx * dt;
        self.y = self.y + self.vy * dt;
    }
}

/// The ball's edge has crossed the bottom wall.
pub open spec fn crosses_bottom(b: Ball) -> bool {
    b.y - b.radius < 0
}

/// The ball's edge has crossed the top wall.
pub open spec fn crosses_top(b: Ball) -> bool {
    b.y + b.radius > ARENA_HEIGHT
}

/// The ball after bouncing off the top or bottom wall: the vertical velocity
/// is reflected and the ball is put back just inside the wall.
pub open spec fn off_walls(b: Ball) -> Ball {
    if crosses_bottom(b) {
        Ball { y: b.radius, vy: -b.vy as i64, in_contact: true, ..b }
    } else if crosses_top(b) {
        Ball { y: (ARENA_HEIGHT - b.radius) as i64, vy: -b.vy as i64, in_contact: true, ..b }
    } else {
        b
    }
}

/// The ball's bounding box overlaps the paddle's rectangle.
pub open spec fn overlaps(b: Ball, p: Paddle) -> bool {
    &&& abs(b.x - p.x) < b.radius + p.width / 2
    &&& abs(b.y - p.y) < b.radius + p.height / 2
}

/// The ball is moving toward the paddle's side.
pub open spec fn approaches(b: Ball, p: Paddle) -> bool {
    match p.side {
        Side::Left => b.vx < 0,
        Side::Right => b.vx > 0,
    }
}

/// Horizontal speed kept after a paddle hit: `speed` scaled by the
/// restitution, rounded toward zero.
pub open spec fn rebound_speed(speed: int, restitution: int) -> int {
    speed * restitution / RESTITUTION_SCALE as int
}

/// Where the ball's centre goes when it rests against the paddle's face.
pub open spec fn contact_x(b: Ball, p: Paddle) -> int {
    match p.side {
        Side::Left => p.x + p.width / 2 + b.radius,
        Side::Right => p.x - p.width / 2 - b.radius,
    }
}

/// The ball after meeting the paddle: when it overlaps the paddle while
/// moving toward it, its horizontal velocity is reflected and scaled by its
/// restitution, and it is put against the paddle's face.
pub open spec fn off_paddle(b: Ball, p: Paddle) -> Ball {
    if overlaps(b, p) && approaches(b, p) {
        let speed = rebound_speed(abs(b.vx as int), b.restitution as int);
        let vx = match p.side {
            Side::Left => speed,
            Side::Right => -speed,
        };
        Ball { x: contact_x(b, p) as i64, vx: vx as i64, in_contact: true, ..b }
    } else {
        b
    }
}

/// Collision resolution for one frame: the contact flag is cleared, then the
/// walls, the left paddle and the right paddle are checked in that order,
/// each against the position left by the one before.
pub open spec fn resolved(b: Ball, left: Paddle, right: Paddle) -> Ball {
    off_paddle(off_paddle(off_walls(Ball { in_contact: false, ..b }), left), right)
}

/// Bounds on a ball between motion and collision resolution.
pub open spec fn in_flight(b: Ball) -> bool {
    &&& 0 <= b.radius <= ARENA_HEIGHT / 2
    &&& 0 <= b.restitution <= RESTITUTION_SCALE
    &&& speed_ok(b.vx as int)
    &&& speed_ok(b.vy as int)
    &&& -FLIGHT_BOUND <= b.x <= FLIGHT_BOUND
    &&& -FLIGHT_BOUND <= b.y <= FLIGHT_BOUND
}

/// Reflects the ball off the top or bottom wall when its edge has crossed
/// one, and reports whether it did.
pub fn resolve_walls(ball: &mut Ball) -> (hit: bool)
    requires
        in_flight(*old(ball)),
    ensures
        hit == (crosses_bottom(*old(ball)) || crosses_top(*old(ball))),
        *final(ball) == off_walls(*old(ball)),
        in_flight(*final(ball)),
        final(ball).radius <= final(ball).y <= ARENA_HEIGHT - final(ball).radius,
{
    if ball.y < ball.radius {
        ball.y = ball.radius;
        ball.vy = -ball.vy;
        ball.in_contact = true;
        true
    } else if ball.y > ARENA_HEIGHT - ball.radius {
        ball.y = ARENA_HEIGHT - ball.radius;
        ball.vy = -ball.vy;
        ball.in_contact = true;
        true
    } else {
        false
    }
}

/// Bounces the ball off `paddle` when it overlaps the paddle while moving
/// toward it, and reports whether it did.
pub fn resolve_paddle(ball: &mut Ball, paddle: &Paddle) -> (hit: bool)
    requires
        in_flight(*old(ball)),
        paddle.wf(),
    ensures
        hit == (overlaps(*old(ball), *paddle) && approaches(*old(ball), *paddle)),
        *final(ball) == off_paddle(*old(ball), *paddle),
        in_flight(*final(ball)),
{
    let dx = distance(ball.x, paddle.x);
    let dy = distance(ball.y, paddle.y);
    let overlap = dx < ball.radius + paddle.width / 2 && dy < ball.radius + paddle.height / 2;
    let toward = match paddle.side {
        Side::Left => ball.vx < 0,
        Side::Right => ball.vx > 0,
    };
    if overlap && toward {
        let speed = speed_magnitude(ball.vx);
        assert(0 <= speed * ball.restitution <= MAX_SPEED * RESTITUTION_SCALE) by (nonlinear_arith)
            requires
                0 <= speed <= MAX_SPEED,
                0 <= ball.restitution <= RESTITUTION_SCALE,
        ;
        let kept = speed * ball.restitution / RESTITUTION_SCALE;
        assert(kept <= speed) by (nonlinear_arith)
            requires
                0 <= speed,
                0 <= ball.restitution <= RESTITUTION_SCALE,
                kept as int == speed as int * ball.restitution as int / (RESTITUTION_SCALE as int),
        ;
        match paddle.side {
            Side::Left => {
                ball.x = paddle.x + paddle.width / 2 + ball.radius;
                ball.vx = kept;
            },
            Side::Right => {
                ball.x = paddle.x - paddle.width / 2 - ball.radius;
                ball.vx = -kept;
            },
        }
        ball.in_contact = true;
        true
    } else {
        false
    }
}

/// Resolves the frame's collisions in the fixed order walls, left paddle,
/// right paddle; `in_contact` ends up true exactly when one of them hit.
pub fn resolve_collisions(ball: &mut Ball, left: &Paddle, right: &Paddle)
    requires
        in_flight(*old(ball)),
        left.wf(),
        right.wf(),
    ensures
        *final(ball) == resolved(*old(ball), *left, *right),
        in_flight(*final(ball)),
        final(ball).radius <= final(ball).y <= ARENA_HEIGHT - final(ball).radius,
{
    ball.in_contact = false;
    resolve_walls(ball);
    resolve_paddle(ball, left);
    resolve_paddle(ball, right);
}

} // verus!
