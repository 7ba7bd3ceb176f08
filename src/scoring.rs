//! The scoring judge: goals, score counters and the serve that follows.
use vstd::prelude::*;
use crate::entities::{Ball, Score, Side, BALL_SPEED};
use crate::geometry::{ARENA_HEIGHT, ARENA_WIDTH};

verus! {

/// The ball has left the arena through the left edge.
pub open spec fn exits_left(b: Ball) -> bool {
    b.x < 0
}

/// The ball has left the arena through the right edge.
pub open spec fn exits_right(b: Ball) -> bool {
    b.x > ARENA_WIDTH
}

/// The ball has left the arena horizontally: a goal.
pub open spec fn is_goal(b: Ball) -> bool {
    exits_left(b) || exits_right(b)
}

/// The ball served toward `toward`: back at the centre of the arena, moving
/// horizontally at `BALL_SPEED` in that side's direction. Size, restitution
/// and the contact flag are kept.
pub open spec fn served(b: Ball, toward: Side) -> Ball {
    Ball {
        x: (ARENA_WIDTH / 2) as i64,
        y: (ARENA_HEIGHT / 2) as i64,
        vx: match toward {
            Side::Left => (-BALL_SPEED) as i64,
            Side::Right => BALL_SPEED,
        },
        vy: 0,
        ..b
    }
}

/// The ball and score after the judge has looked at the frame. The side
/// through whose edge the ball left loses the point, the other side scores
/// one, and the ball is served toward the side that lost.
pub open spec fn judged(b: Ball, s: Score) -> (Ball, Score) {
    if exits_left(b) {
        (served(b, Side::Left), Score { right_score: (s.right_score + 1) as u64, ..s })
    } else if exits_right(b) {
        (served(b, Side::Right), Score { left_score: (s.left_score + 1) as u64, ..s })
    } else {
        (b, s)
    }
}

impl Ball {
    /// Puts the ball back at the centre of the arena and serves it toward
    /// `toward` at `BALL_SPEED`.
    pub fn reset(&mut self, toward: Side)
        ensures
            *final(self) == served(*old(self), toward),
            final(self).x == ARENA_WIDTH / 2,
            final(self).y == ARENA_HEIGHT / 2,
            final(self).vx * final(self).vx + final(self).vy * final(self).vy == BALL_SPEED
                * BALL_SPEED,
    {
        self.x = ARENA_WIDTH / 2;
        self.y = ARENA_HEIGHT / 2;
        self.vx = match toward {
            Side::Left => -BALL_SPEED,
            Side::Right => BALL_SPEED,
        };
        self.vy = 0;
        assert(self.vx * self.vx == BALL_SPEED * BALL_SPEED) by (nonlinear_arith)
            requires
                self.vx == BALL_SPEED || self.vx == -BALL_SPEED,
        ;
    }
}

/// Looks for a goal after collision resolution. On a goal the scoring side's
/// counter goes up by one and the ball is served toward the side that lost;
/// the scoring side is returned.
pub fn judge_score(ball: &mut Ball, score: &mut Score) -> (scorer: Option<Side>)
    requires
        old(score).left_score < u64::MAX,
        old(score).right_score < u64::MAX,
    ensures
        (*final(ball), *final(score)) == judged(*old(ball), *old(score)),
        scorer == (if exits_left(*old(ball)) {
            Some(Side::Right)
        } else if exits_right(*old(ball)) {
            Some(Side::Left)
        } else {
            None
        }),
        final(score).total() == old(score).total() + if is_goal(*old(ball)) {
            1int
        } else {
            0int
        },
        final(score).left_score >= old(score).left_score,
        final(score).right_score >= old(score).right_score,
{
    if ball.x < 0 {
        score.right_score = score.right_score + 1;
        ball.reset(Side::Left);
        Some(Side::Right)
    } else if ball.x > ARENA_WIDTH {
        score.left_score = score.left_score + 1;
        ball.reset(Side::Right);
        Some(Side::Left)
    } else {
        None
    }
}

} // verus!
