use pong::entities::{BALL_RADIUS, BALL_SPEED, PADDLE_HEIGHT, PADDLE_SPEED, PADDLE_WIDTH, RESTITUTION_SCALE};
use pong::geometry::{clamp_i64, distance, sanitize_dt, speed_magnitude, ARENA_HEIGHT, ARENA_WIDTH, UNIT};
use pong::physics::{paddle_velocity, resolve_collisions, resolve_paddle, resolve_walls};
use pong::scoring::judge_score;
use pong::{Ball, Camera, Input, Paddle, Phase, Pong, Score, Side, Trans, World};

fn no_keys() -> Input {
    Input {
        close_requested: false,
        escape_down: false,
        left_up: false,
        left_down: false,
        right_up: false,
        right_down: false,
    }
}

fn running_with(world: World) -> Pong {
    Pong { phase: Phase::Running, world }
}

#[test]
fn initial_world_matches_the_arena_layout() {
    let w = World::new();
    assert_eq!(w.ball.x, 50 * UNIT);
    assert_eq!(w.ball.y, 50 * UNIT);
    assert_eq!(w.ball.radius, 2 * UNIT);
    assert_eq!(w.ball.vx, BALL_SPEED);
    assert_eq!(w.ball.vy, 0);
    assert_eq!(w.ball.restitution, RESTITUTION_SCALE);
    assert!(!w.ball.in_contact);
    assert_eq!(w.left_paddle.side, Side::Left);
    assert_eq!(w.left_paddle.x, 2 * UNIT);
    assert_eq!(w.right_paddle.side, Side::Right);
    assert_eq!(w.right_paddle.x, 98 * UNIT);
    assert_eq!(w.left_paddle.y, 50 * UNIT);
    assert_eq!(w.left_paddle.width, 4 * UNIT);
    assert_eq!(w.left_paddle.height, 16 * UNIT);
    assert_eq!(w.score, Score { left_score: 0, right_score: 0 });
    assert_eq!(w.camera, Camera { left: 0, right: ARENA_WIDTH, top: ARENA_HEIGHT, bottom: 0 });
    assert_eq!(BALL_RADIUS, 2_000_000);
    assert_eq!(PADDLE_WIDTH, 4_000_000);
    assert_eq!(PADDLE_HEIGHT, 16_000_000);
}

#[test]
fn both_keys_held_cancel_out() {
    assert_eq!(paddle_velocity(true, true), 0);
    assert_eq!(paddle_velocity(false, false), 0);
    assert_eq!(paddle_velocity(true, false), PADDLE_SPEED);
    assert_eq!(paddle_velocity(false, true), -PADDLE_SPEED);
}

#[test]
fn both_keys_held_leave_left_paddle_still() {
    let mut p = running_with(World::new());
    let mut input = no_keys();
    input.left_up = true;
    input.left_down = true;
    assert_eq!(p.update(1000, input), Trans::Continue);
    assert_eq!(p.world.left_paddle.vy, 0);
    assert_eq!(p.world.left_paddle.y, 50 * UNIT);
}

#[test]
fn ball_bounces_off_right_paddle() {
    let mut w = World::new();
    w.ball.x = 98 * UNIT;
    w.ball.y = 50 * UNIT;
    w.ball.vx = 1000;
    w.ball.vy = 0;
    w.right_paddle.x = 96 * UNIT;
    w.right_paddle.y = 50 * UNIT;
    let mut p = running_with(w);
    assert_eq!(p.update(1000, no_keys()), Trans::Continue);
    assert_eq!(p.world.ball.vx, -1000);
    assert!(p.world.ball.in_contact);
    assert_eq!(p.world.ball.x, 92 * UNIT);
    assert_eq!(p.world.score, Score { left_score: 0, right_score: 0 });
}

#[test]
fn ball_past_right_edge_scores_for_left() {
    let mut w = World::new();
    w.ball.x = 99_900_000;
    w.ball.y = 50 * UNIT;
    w.ball.vx = 1000;
    w.right_paddle.y = 10 * UNIT;
    let mut p = running_with(w);
    assert_eq!(p.update(1000, no_keys()), Trans::Continue);
    assert_eq!(p.world.score.left_score, 1);
    assert_eq!(p.world.score.right_score, 0);
    assert_eq!((p.world.ball.x, p.world.ball.y), (50 * UNIT, 50 * UNIT));
    assert_eq!((p.world.ball.vx, p.world.ball.vy), (BALL_SPEED, 0));
}

#[test]
fn ball_past_left_edge_scores_for_right() {
    let mut w = World::new();
    w.ball.x = 100_000;
    w.ball.vx = -1000;
    w.left_paddle.y = 90 * UNIT;
    let mut p = running_with(w);
    p.update(1000, no_keys());
    assert_eq!(p.world.score, Score { left_score: 0, right_score: 1 });
    assert_eq!((p.world.ball.vx, p.world.ball.vy), (-BALL_SPEED, 0));
    assert_eq!((p.world.ball.x, p.world.ball.y), (50 * UNIT, 50 * UNIT));
}

#[test]
fn quit_skips_the_frame() {
    let mut w = World::new();
    w.ball.x = 99_900_000;
    let mut p = running_with(w);
    let before = p.world;
    let mut input = no_keys();
    input.escape_down = true;
    input.left_up = true;
    assert_eq!(p.update(1000, input), Trans::Quit);
    assert_eq!(p.world, before);
    assert_eq!(p.phase, Phase::Terminating);
    assert_eq!(p.update(1000, no_keys()), Trans::Quit);
    assert_eq!(p.world, before);
}

#[test]
fn close_request_quits() {
    let mut p = Pong::new();
    assert_eq!(p.handle_event(true, false), Trans::Quit);
    assert_eq!(p.phase, Phase::Terminating);
    let mut q = Pong::new();
    assert_eq!(q.handle_event(false, false), Trans::Continue);
    assert_eq!(q, Pong::new());
}

#[test]
fn start_up_happens_once() {
    let mut p = Pong::new();
    assert_eq!(p.phase, Phase::Initializing);
    p.on_start();
    assert_eq!(p.phase, Phase::Running);
    p.world.score.left_score = 3;
    p.on_start();
    assert_eq!(p.world.score.left_score, 3);
}

#[test]
fn first_update_starts_the_game() {
    let mut p = Pong::new();
    assert_eq!(p.update(1000, no_keys()), Trans::Continue);
    assert_eq!(p.phase, Phase::Running);
    assert_eq!(p.world.ball.x, 51 * UNIT);
}

#[test]
fn free_flight_moves_by_velocity_times_dt() {
    let mut w = World::new();
    w.ball.vx = 700;
    w.ball.vy = -300;
    let mut p = running_with(w);
    p.update(2000, no_keys());
    assert_eq!(p.world.ball.x, 50 * UNIT + 1_400_000);
    assert_eq!(p.world.ball.y, 50 * UNIT - 600_000);
    assert!(!p.world.ball.in_contact);
}

#[test]
fn zero_and_negative_dt_are_no_ops() {
    let mut p = running_with(World::new());
    let before = p.world;
    p.update(0, no_keys());
    assert_eq!(p.world, before);
    p.update(-500, no_keys());
    assert_eq!(p.world, before);
    assert_eq!(sanitize_dt(-5), 0);
    assert_eq!(sanitize_dt(7), 7);
}

#[test]
fn paddle_is_clamped_at_the_top() {
    let mut p = running_with(World::new());
    let mut input = no_keys();
    input.right_up = true;
    for _ in 0..10 {
        p.update(10_000, input);
    }
    assert_eq!(p.world.right_paddle.y, ARENA_HEIGHT - PADDLE_HEIGHT / 2);
    assert_eq!(p.world.right_paddle.vy, PADDLE_SPEED);
    assert_eq!(p.world.right_paddle.x, 98 * UNIT);
}

#[test]
fn paddle_is_clamped_at_the_bottom() {
    let mut paddle = Paddle::new(Side::Left);
    paddle.vy = -PADDLE_SPEED;
    paddle.advance(1_000_000);
    assert_eq!(paddle.y, PADDLE_HEIGHT / 2);
    assert_eq!(paddle.vy, -PADDLE_SPEED);
}

#[test]
fn wall_bounce_keeps_ball_inside() {
    let mut ball = Ball::new();
    ball.y = 500_000;
    ball.vy = -1000;
    assert!(resolve_walls(&mut ball));
    assert_eq!(ball.y, BALL_RADIUS);
    assert_eq!(ball.vy, 1000);
    assert!(ball.in_contact);

    let mut top = Ball::new();
    top.y = ARENA_HEIGHT + 3 * UNIT;
    top.vy = 2000;
    assert!(resolve_walls(&mut top));
    assert_eq!(top.y, ARENA_HEIGHT - BALL_RADIUS);
    assert_eq!(top.vy, -2000);

    let mut free = Ball::new();
    assert!(!resolve_walls(&mut free));
    assert_eq!(free, Ball::new());
}

#[test]
fn wall_bounce_over_a_frame() {
    let mut w = World::new();
    w.ball.y = 97 * UNIT;
    w.ball.vx = 0;
    w.ball.vy = 5000;
    let mut p = running_with(w);
    p.update(1000, no_keys());
    assert_eq!(p.world.ball.y, ARENA_HEIGHT - BALL_RADIUS);
    assert_eq!(p.world.ball.vy, -5000);
    assert!(p.world.ball.in_contact);
    p.update(1000, no_keys());
    assert!(!p.world.ball.in_contact);
    assert_eq!(p.world.ball.y, ARENA_HEIGHT - BALL_RADIUS - 5 * UNIT);
}

#[test]
fn paddle_hit_scales_by_restitution() {
    let mut ball = Ball::new();
    ball.x = 5 * UNIT;
    ball.y = 50 * UNIT;
    ball.vx = -1001;
    ball.restitution = 500;
    let left = Paddle::new(Side::Left);
    assert!(resolve_paddle(&mut ball, &left));
    assert_eq!(ball.vx, 500);
    assert_eq!(ball.x, 2 * UNIT + 2 * UNIT + BALL_RADIUS);
    assert!(ball.in_contact);
}

#[test]
fn ball_moving_away_does_not_bounce() {
    let mut ball = Ball::new();
    ball.x = 5 * UNIT;
    ball.vx = 1000;
    let left = Paddle::new(Side::Left);
    let before = ball;
    assert!(!resolve_paddle(&mut ball, &left));
    assert_eq!(ball, before);
}

#[test]
fn contact_flag_is_cleared_each_frame() {
    let mut ball = Ball::new();
    ball.in_contact = true;
    resolve_collisions(&mut ball, &Paddle::new(Side::Left), &Paddle::new(Side::Right));
    assert!(!ball.in_contact);
}

#[test]
fn judge_counts_one_per_goal() {
    let mut score = Score::new();
    let mut ball = Ball::new();
    assert_eq!(judge_score(&mut ball, &mut score), None);
    ball.x = -1;
    assert_eq!(judge_score(&mut ball, &mut score), Some(Side::Right));
    ball.x = ARENA_WIDTH + 1;
    assert_eq!(judge_score(&mut ball, &mut score), Some(Side::Left));
    ball.x = ARENA_WIDTH;
    assert_eq!(judge_score(&mut ball, &mut score), None);
    assert_eq!(score, Score { left_score: 1, right_score: 1 });
}

#[test]
fn scores_sum_to_goals_over_a_rally() {
    let mut p = running_with(World::new());
    let mut input = no_keys();
    input.right_up = true;
    let mut goals: u64 = 0;
    let mut last = p.world.score;
    for _ in 0..400 {
        p.update(1000, input);
        let s = p.world.score;
        assert!(s.left_score >= last.left_score && s.right_score >= last.right_score);
        if s != last {
            goals += 1;
            assert_eq!(s.left_score + s.right_score, last.left_score + last.right_score + 1);
            assert_eq!((p.world.ball.x, p.world.ball.y), (50 * UNIT, 50 * UNIT));
            assert_eq!((p.world.ball.vx, p.world.ball.vy), (BALL_SPEED, 0));
        }
        last = s;
    }
    assert!(goals >= 5);
    assert_eq!(p.world.score.right_score, 0);
    assert_eq!(p.world.score.left_score, goals);
}

#[test]
fn reset_serves_from_centre() {
    let mut ball = Ball::new();
    ball.x = 3;
    ball.y = 7;
    ball.vx = -40;
    ball.vy = 90;
    ball.reset(Side::Left);
    assert_eq!((ball.x, ball.y, ball.vx, ball.vy), (50 * UNIT, 50 * UNIT, -BALL_SPEED, 0));
    assert_eq!(ball.vx * ball.vx + ball.vy * ball.vy, BALL_SPEED * BALL_SPEED);
    ball.reset(Side::Right);
    assert_eq!(ball.vx, BALL_SPEED);
}

#[test]
fn integer_helpers() {
    assert_eq!(speed_magnitude(-12), 12);
    assert_eq!(speed_magnitude(12), 12);
    assert_eq!(clamp_i64(5, 0, 3), 3);
    assert_eq!(clamp_i64(-5, 0, 3), 0);
    assert_eq!(clamp_i64(2, 0, 3), 2);
    assert_eq!(distance(3, 10), 7);
    assert_eq!(distance(10, 3), 7);
}
