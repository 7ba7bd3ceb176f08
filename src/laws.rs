//! Properties of whole frames and of runs of frames.
use vstd::prelude::*;
use crate::entities::{speed_ok, Ball, Paddle, BALL_SPEED, RESTITUTION_SCALE};
use crate::geometry::{frame_time, ARENA_HEIGHT, ARENA_WIDTH, MAX_FRAME_MS, MAX_SPEED};
use crate::physics::{in_flight, off_paddle, off_walls, rebound_speed, resolved};
use crate::round::{Input, Phase, Pong, Trans, World};
use crate::scoring::is_goal;

verus! {

/// Every frame of the run is no longer than `MAX_FRAME_MS`.
pub open spec fn frames_ok(frames: Seq<(i64, Input)>) -> bool {
    forall|i: int| 0 <= i < frames.len() ==> #[trigger] frames[i].0 <= MAX_FRAME_MS
}

/// The game after `update` has been called once for each frame, in order.
pub open spec fn run(p: Pong, frames: Seq<(i64, Input)>) -> Pong
    decreases frames.len(),
{
    if frames.len() == 0 {
        p
    } else {
        run(p, frames.drop_last()).frame(frames.last().0 as int, frames.last().1).0
    }
}

/// A goal is scored in the frame that `update` runs on `p`.
pub open spec fn goal_in_frame(p: Pong, dt: int, input: Input) -> bool {
    &&& !input.quits()
    &&& p.phase != Phase::Terminating
    &&& is_goal(p.started().world.collided_ball(frame_time(dt), input))
}

/// Number of goals scored over a run.
pub open spec fn goals(p: Pong, frames: Seq<(i64, Input)>) -> nat
    decreases frames.len(),
{
    if frames.len() == 0 {
        0
    } else {
        let before = run(p, frames.drop_last());
        goals(p, frames.drop_last()) + if goal_in_frame(before, frames.last().0 as int, frames.last().1) {
            1nat
        } else {
            0nat
        }
    }
}

proof fn lemma_rebound_not_faster(speed: int, restitution: int)
    requires
        0 <= speed,
        0 <= restitution <= RESTITUTION_SCALE,
    ensures
        0 <= rebound_speed(speed, restitution) <= speed,
{
    assert(0 <= speed * restitution <= speed * RESTITUTION_SCALE) by (nonlinear_arith)
        requires
            0 <= speed,
            0 <= restitution <= RESTITUTION_SCALE,
    ;
    assert(speed * restitution / (RESTITUTION_SCALE as int) <= speed) by (nonlinear_arith)
        requires
            0 <= speed * restitution <= speed * RESTITUTION_SCALE,
            0 <= speed,
    ;
}

proof fn lemma_paddle_bounce_in_flight(b: Ball, p: Paddle)
    requires
        in_flight(b),
        p.wf(),
    ensures
        in_flight(off_paddle(b, p)),
        off_paddle(b, p).y == b.y,
{
    if b.vx < 0 {
        lemma_rebound_not_faster(-b.vx, b.restitution as int);
    } else {
        lemma_rebound_not_faster(b.vx as int, b.restitution as int);
    }
}

/// Collision resolution keeps the ball in range and leaves it vertically
/// inside the arena.
proof fn lemma_resolved_in_arena(b: Ball, left: Paddle, right: Paddle)
    requires
        in_flight(b),
        left.wf(),
        right.wf(),
    ensures
        in_flight(resolved(b, left, right)),
        resolved(b, left, right).radius <= resolved(b, left, right).y <= ARENA_HEIGHT - resolved(
            b,
            left,
            right,
        ).radius,
{
    let w = off_walls(Ball { in_contact: false, ..b });
    assert(in_flight(w));
    lemma_paddle_bounce_in_flight(w, left);
    lemma_paddle_bounce_in_flight(off_paddle(w, left), right);
}

proof fn lemma_moved_in_flight(b: Ball, dt: int)
    requires
        b.wf(),
        0 <= dt <= MAX_FRAME_MS,
    ensures
        in_flight(b.moved(dt)),
        b.moved(dt).x == b.x + b.vx * dt,
        b.moved(dt).y == b.y + b.vy * dt,
{
    assert(-MAX_FRAME_MS * MAX_SPEED <= b.vx * dt <= MAX_FRAME_MS * MAX_SPEED) by (nonlinear_arith)
        requires
            speed_ok(b.vx as int),
            0 <= dt <= MAX_FRAME_MS,
    ;
    assert(-MAX_FRAME_MS * MAX_SPEED <= b.vy * dt <= MAX_FRAME_MS * MAX_SPEED) by (nonlinear_arith)
        requires
            speed_ok(b.vy as int),
            0 <= dt <= MAX_FRAME_MS,
    ;
}

/// One frame of simulation keeps the world well formed.
proof fn lemma_stepped_wf(w: World, dt: int, input: Input)
    requires
        w.wf(),
        0 <= dt <= MAX_FRAME_MS,
    ensures
        w.stepped(dt, input).wf(),
        w.stepped(dt, input).ball.radius <= w.stepped(dt, input).ball.y <= ARENA_HEIGHT - w.stepped(
            dt,
            input,
        ).ball.radius,
{
    lemma_moved_in_flight(w.ball, dt);
    lemma_resolved_in_arena(w.ball.moved(dt), w.moved_left(dt, input), w.moved_right(dt, input));
}

/// One call of `update` keeps the game well formed.
proof fn lemma_frame_wf(p: Pong, dt: int, input: Input)
    requires
        p.wf(),
        dt <= MAX_FRAME_MS,
    ensures
        p.frame(dt, input).0.wf(),
{
    if !(input.quits() || p.phase == Phase::Terminating) {
        lemma_stepped_wf(p.started().world, frame_time(dt), input);
    }
}

/// A frame without any collision and without a goal leaves the ball exactly
/// where its velocity carries it: its old position plus velocity times the
/// frame's elapsed time.
pub proof fn lemma_free_flight(p: Pong, dt: i64, input: Input)
    requires
        p.wf(),
        p.phase == Phase::Running,
        !input.quits(),
        0 <= dt <= MAX_FRAME_MS,
    ensures
        ({
            let next = p.frame(dt as int, input).0.world.ball;
            !next.in_contact && !goal_in_frame(p, dt as int, input) ==> {
                &&& next.x == p.world.ball.x + p.world.ball.vx * dt
                &&& next.y == p.world.ball.y + p.world.ball.vy * dt
                &&& next.vx == p.world.ball.vx
                &&& next.vy == p.world.ball.vy
            }
        }),
{
    lemma_moved_in_flight(p.world.ball, dt as int);
}

/// After any frame the ball is vertically inside the arena: a crossing of
/// the top or bottom wall is undone within the same frame.
pub proof fn lemma_ball_kept_between_walls(p: Pong, dt: i64, input: Input)
    requires
        p.wf(),
        dt <= MAX_FRAME_MS,
    ensures
        0 <= p.frame(dt as int, input).0.world.ball.y <= ARENA_HEIGHT,
        p.frame(dt as int, input).1 == Trans::Continue ==> {
            let b = p.frame(dt as int, input).0.world.ball;
            b.radius <= b.y <= ARENA_HEIGHT - b.radius
        },
{
    lemma_frame_wf(p, dt as int, input);
    if !(input.quits() || p.phase == Phase::Terminating) {
        lemma_stepped_wf(p.started().world, frame_time(dt as int), input);
    }
}

/// Over any run of frames every paddle stays clamped to
/// `[height / 2, ARENA_HEIGHT - height / 2]`, the ball stays in the arena,
/// and the world stays well formed.
pub proof fn lemma_run_stays_in_arena(p: Pong, frames: Seq<(i64, Input)>)
    requires
        p.wf(),
        frames_ok(frames),
    ensures
        run(p, frames).wf(),
        ({
            let w = run(p, frames).world;
            &&& w.left_paddle.min_y() <= w.left_paddle.y <= w.left_paddle.max_y()
            &&& w.right_paddle.min_y() <= w.right_paddle.y <= w.right_paddle.max_y()
            &&& 0 <= w.ball.x <= ARENA_WIDTH
            &&& 0 <= w.ball.y <= ARENA_HEIGHT
        }),
    decreases frames.len(),
{
    if frames.len() > 0 {
        let init = frames.drop_last();
        assert forall|i: int| 0 <= i < init.len() implies #[trigger] init[i].0 <= MAX_FRAME_MS by {
            assert(init[i] == frames[i]);
        }
        lemma_run_stays_in_arena(p, init);
        assert(frames.last() == frames[frames.len() - 1]);
        lemma_frame_wf(run(p, init), frames.last().0 as int, frames.last().1);
    }
}

proof fn lemma_frame_score(p: Pong, dt: int, input: Input)
    requires
        p.phase != Phase::Initializing,
        p.world.score.left_score < u64::MAX,
        p.world.score.right_score < u64::MAX,
    ensures
        ({
            let next = p.frame(dt, input).0;
            &&& next.phase != Phase::Initializing
            &&& next.world.score.total() == p.world.score.total() + if goal_in_frame(p, dt, input) {
                1int
            } else {
                0int
            }
            &&& next.world.score.left_score >= p.world.score.left_score
            &&& next.world.score.right_score >= p.world.score.right_score
        }),
{
}

/// Score counters never go down, and over any run since start-up the two
/// counters together have grown by exactly the number of goals scored: one
/// per goal.
pub proof fn lemma_score_counts_goals(p: Pong, frames: Seq<(i64, Input)>)
    requires
        p.phase != Phase::Initializing,
        p.world.score.left_score + frames.len() < u64::MAX,
        p.world.score.right_score + frames.len() < u64::MAX,
    ensures
        run(p, frames).world.score.total() == p.world.score.total() + goals(p, frames),
        run(p, frames).world.score.left_score >= p.world.score.left_score,
        run(p, frames).world.score.right_score >= p.world.score.right_score,
        goals(p, frames) <= frames.len(),
        run(p, frames).phase != Phase::Initializing,
    decreases frames.len(),
{
    if frames.len() > 0 {
        let init = frames.drop_last();
        lemma_score_counts_goals(p, init);
        lemma_frame_score(run(p, init), frames.last().0 as int, frames.last().1);
    }
}

/// After a goal the ball is served again from the centre of the arena at
/// `BALL_SPEED`, and the side that scored gains one point.
pub proof fn lemma_goal_serves_from_centre(p: Pong, dt: i64, input: Input)
    requires
        goal_in_frame(p, dt as int, input),
        p.world.score.left_score < u64::MAX,
        p.world.score.right_score < u64::MAX,
    ensures
        ({
            let before = p.started().world;
            let next = p.frame(dt as int, input).0.world;
            &&& next.ball.x == ARENA_WIDTH / 2
            &&& next.ball.y == ARENA_HEIGHT / 2
            &&& next.ball.vx * next.ball.vx + next.ball.vy * next.ball.vy == BALL_SPEED * BALL_SPEED
            &&& next.score.total() == before.score.total() + 1
        }),
{
    let next = p.frame(dt as int, input).0.world;
    assert(next.ball.vx * next.ball.vx == BALL_SPEED * BALL_SPEED) by (nonlinear_arith)
        requires
            next.ball.vx == BALL_SPEED || next.ball.vx == -BALL_SPEED,
    ;
}

} // verus!
