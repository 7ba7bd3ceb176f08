//! World state and the per-frame round controller.
use vstd::prelude::*;
use crate::entities::{Ball, Camera, Paddle, Score, Side};
use crate::geometry::{frame_time, sanitize_dt, ARENA_HEIGHT, ARENA_WIDTH, MAX_FRAME_MS};
use crate::physics::{paddle_velocity, resolve_collisions, resolved, steer};
use crate::scoring::{judge_score, judged};

verus! {

/// The keys and window signals that the host reports for one frame.
#[derive(Clone, Copy, Debug, PartialEq, Eq, Structural)]
pub struct Input {
    /// The window was asked to close.
    pub close_requested: bool,
    /// The escape key is down.
    pub escape_down: bool,
    pub left_up: bool,
    pub left_down: bool,
    pub right_up: bool,
    pub right_down: bool,
}

impl Input {
    /// The frame carries a quit signal.
    pub open spec fn quits(self) -> bool {
        self.close_requested || self.escape_down
    }
}

/// Where the game is in its lifecycle.
#[derive(Clone, Copy, Debug, PartialEq, Eq, Structural)]
pub enum Phase {
    Initializing,
    Running,
    Terminating,
}

/// What the controller tells the host after a frame or an event.
#[derive(Clone, Copy, Debug, PartialEq, Eq, Structural)]
pub enum Trans {
    Continue,
    Quit,
}

/// Everything the simulation owns: one ball, one paddle per side, the score
/// and the camera.
#[derive(Clone, Copy, Debug, PartialEq, Eq, Structural)]
pub struct World {
    pub ball: Ball,
    pub left_paddle: Paddle,
    pub right_paddle: Paddle,
    pub score: Score,
    pub camera: Camera,
}

impl World {
    /// Every record is in range, and each paddle sits on its own side.
    pub open spec fn wf(self) -> bool {
        &&& self.ball.wf()
        &&& self.left_paddle.wf()
        &&& self.left_paddle.side == Side::Left
        &&& self.right_paddle.wf()
        &&& self.right_paddle.side == Side::Right
    }

    /// The world as a round starts.
    pub open spec fn initial() -> World {
        World {
            ball: Ball::initial(),
            left_paddle: Paddle::initial(Side::Left),
            right_paddle: Paddle::initial(Side::Right),
            score: Score { right_score: 0, left_score: 0 },
            camera: Camera { left: 0, right: ARENA_WIDTH, top: ARENA_HEIGHT, bottom: 0 },
        }
    }

    /// Builds the ball, both paddles, the score and the camera.
    pub fn new() -> (w: World)
        ensures
            w == World::initial(),
            w.wf(),
    {
        World {
            ball: Ball::new(),
            left_paddle: Paddle::new(Side::Left),
            right_paddle: Paddle::new(Side::Right),
            score: Score::new(),
            camera: Camera::new(),
        }
    }

    /// The left paddle after steering and motion over `dt` milliseconds.
    pub open spec fn moved_left(self, dt: int, input: Input) -> Paddle {
        Paddle { vy: steer(input.left_up, input.left_down) as i64, ..self.left_paddle }.advanced(dt)
    }

    /// The right paddle after steering and motion over `dt` milliseconds.
    pub open spec fn moved_right(self, dt: int, input: Input) -> Paddle {
        Paddle { vy: steer(input.right_up, input.right_down) as i64, ..self.right_paddle }.advanced(
            dt,
        )
    }

    /// The ball after motion and collision resolution, before the judge.
    pub open spec fn collided_ball(self, dt: int, input: Input) -> Ball {
        resolved(self.ball.moved(dt), self.moved_left(dt, input), self.moved_right(dt, input))
    }

    /// The world after one frame of `dt` milliseconds: input mapping, motion,
    /// collision resolution and scoring, in that order.
    pub open spec fn stepped(self, dt: int, input: Input) -> World {
        let judged_pair = judged(self.collided_ball(dt, input), self.score);
        World {
            ball: judged_pair.0,
            left_paddle: self.moved_left(dt, input),
            right_paddle: self.moved_right(dt, input),
            score: judged_pair.1,
            camera: self.camera,
        }
    }

    /// Runs one frame of simulation over `dt` milliseconds.
    pub fn step(&mut self, dt: i64, input: &Input)
        requires
            old(self).wf(),
            0 <= dt <= MAX_FRAME_MS,
            old(self).score.left_score < u64::MAX,
            old(self).score.right_score < u64::MAX,
        ensures
            *final(self) == old(self).stepped(dt as int, *input),
            final(self).wf(),
    {
        self.left_paddle.vy = paddle_velocity(input.left_up, input.left_down);
        self.right_paddle.vy = paddle_velocity(input.right_up, input.right_down);
        self.left_paddle.advance(dt);
        self.right_paddle.advance(dt);
        self.ball.advance(dt);
        resolve_collisions(&mut self.ball, &self.left_paddle, &self.right_paddle);
        judge_score(&mut self.ball, &mut self.score);
    }
}

/// The game: its lifecycle phase and its world.
#[derive(Clone, Copy, Debug, PartialEq, Eq, Structural)]
pub struct Pong {
    pub phase: Phase,
    pub world: World,
}

impl Pong {
    pub open spec fn wf(self) -> bool {
        self.world.wf()
    }

    /// The game after start-up: running on a fresh world. Start-up happens
    /// once; in any later phase nothing changes.
    pub open spec fn started(self) -> Pong {
        if self.phase == Phase::Initializing {
            Pong { phase: Phase::Running, world: World::initial() }
        } else {
            self
        }
    }

    /// The game after one call of `update`, and what that call returns.
    pub open spec fn frame(self, dt: int, input: Input) -> (Pong, Trans) {
        if input.quits() || self.phase == Phase::Terminating {
            (Pong { phase: Phase::Terminating, ..self }, Trans::Quit)
        } else {
            (
                Pong {
                    phase: Phase::Running,
                    world: self.started().world.stepped(frame_time(dt), input),
                },
                Trans::Continue,
            )
        }
    }

    /// A game waiting for start-up.
    pub fn new() -> (p: Pong)
        ensures
            p.phase == Phase::Initializing,
            p.world == World::initial(),
            p.wf(),
    {
        Pong { phase: Phase::Initializing, world: World::new() }
    }

    /// Start-up: builds the ball, paddles, score and camera and starts
    /// running. Only the first call has an effect.
    pub fn on_start(&mut self)
        requires
            old(self).wf(),
        ensures
            *final(self) == old(self).started(),
            final(self).wf(),
    {
        if self.phase == Phase::Initializing {
            self.world = World::new();
            self.phase = Phase::Running;
        }
    }

    /// A window event: a close request or the escape key ends the game,
    /// anything else leaves it as it is.
    pub fn handle_event(&mut self, close_requested: bool, escape_down: bool) -> (t: Trans)
        ensures
            close_requested || escape_down ==> t == Trans::Quit && *final(self) == (Pong {
                phase: Phase::Terminating,
                ..*old(self)
            }),
            !(close_requested || escape_down) ==> t == Trans::Continue && *final(self)
                == *old(self),
    {
        if close_requested || escape_down {
            self.phase = Phase::Terminating;
            Trans::Quit
        } else {
            Trans::Continue
        }
    }

    /// One frame. A quit signal, or a game already ending, returns `Quit`
    /// before any simulation work. Otherwise start-up runs if it has not yet,
    /// and the world is stepped by `dt` milliseconds (a negative `dt` counts
    /// as zero).
    pub fn update(&mut self, dt: i64, input: Input) -> (t: Trans)
        requires
            old(self).wf(),
            dt <= MAX_FRAME_MS,
            old(self).world.score.left_score < u64::MAX,
            old(self).world.score.right_score < u64::MAX,
        ensures
            (*final(self), t) == old(self).frame(dt as int, input),
            final(self).wf(),
            input.quits() ==> t == Trans::Quit && final(self).world == old(self).world,
    {
        let t = self.handle_event(input.close_requested, input.escape_down);
        if t == Trans::Quit || self.phase == Phase::Terminating {
            self.phase = Phase::Terminating;
            return Trans::Quit;
        }
        self.on_start();
        let dt = sanitize_dt(dt);
        self.world.step(dt, &input);
        self.phase = Phase::Running;
        Trans::Continue
    }
}

} // verus!
