use pong::ball::{Ball, Direction};
use pong::config::{
    BALL_MAX_X, BALL_MIN_X, PADDLE_MAX_Y, PADDLE_MIN_Y, PADDLE_SPEED, PADDLE_START_Y,
};
use pong::paddle::{KeysHeld, Paddle};
use pong::scene::{spawn_middle_line, Scene};

const UP: KeysHeld = KeysHeld { up: true, down: false };
const DOWN: KeysHeld = KeysHeld { up: false, down: true };
const BOTH: KeysHeld = KeysHeld { up: true, down: true };
const NONE: KeysHeld = KeysHeld { up: false, down: false };

#[test]
fn fresh_game_places_everything_at_its_spot() {
    let s = Scene::spawn();
    assert_eq!(s.ball.x, 0);
    assert_eq!(s.ball.y, 0);
    assert_eq!(s.ball.direction, Direction::Left);
    assert_eq!(s.left_paddle.x, -295_000);
    assert_eq!(s.right_paddle.x, 295_000);
    assert_eq!(s.left_paddle.x, -s.right_paddle.x);
    assert_eq!(s.left_paddle.y, PADDLE_START_Y);
    assert_eq!(s.right_paddle.y, PADDLE_START_Y);
}

#[test]
fn middle_line_has_one_segment_per_slice() {
    let line = spawn_middle_line();
    assert_eq!(line.len(), 24);
    for (i, seg) in line.iter().enumerate() {
        assert_eq!(seg.x, 0);
        assert_eq!(seg.y, i as i64 * 20_000 + 10_000 - 240_000);
    }
    assert_eq!(line[0].y, -230_000);
    assert_eq!(line[23].y, 230_000);
}

#[test]
fn ball_travels_left_at_its_speed() {
    let mut b = Ball::spawn();
    b.step(1000);
    assert_eq!(b.x, -150_000);
    assert_eq!(b.y, 0);
    assert_eq!(b.direction, Direction::Left);
}

#[test]
fn zero_elapsed_time_leaves_ball_unchanged() {
    let mut b = Ball::spawn();
    b.step(0);
    assert_eq!(b.x, 0);
    assert_eq!(b.y, 0);
    assert_eq!(b.direction, Direction::Left);

    let mut near_edge = Ball { x: BALL_MIN_X, y: 0, direction: Direction::Left };
    near_edge.step(0);
    assert_eq!(near_edge.x, BALL_MIN_X);
    assert_eq!(near_edge.direction, Direction::Left);
}

#[test]
fn ball_flips_just_past_left_threshold() {
    // Landing exactly on the threshold does not flip; one subpixel past does.
    let mut on_edge = Ball { x: BALL_MIN_X + 150, y: 0, direction: Direction::Left };
    on_edge.step(1);
    assert_eq!(on_edge.x, BALL_MIN_X);
    assert_eq!(on_edge.direction, Direction::Left);

    let mut past_edge = Ball { x: BALL_MIN_X + 149, y: 0, direction: Direction::Left };
    past_edge.step(1);
    assert_eq!(past_edge.x, BALL_MIN_X - 1);
    assert_eq!(past_edge.direction, Direction::Right);
}

#[test]
fn ball_flips_just_past_right_threshold() {
    let mut on_edge = Ball { x: BALL_MAX_X - 150, y: 0, direction: Direction::Right };
    on_edge.step(1);
    assert_eq!(on_edge.x, BALL_MAX_X);
    assert_eq!(on_edge.direction, Direction::Right);

    let mut past_edge = Ball { x: BALL_MAX_X - 149, y: 0, direction: Direction::Right };
    past_edge.step(1);
    assert_eq!(past_edge.x, BALL_MAX_X + 1);
    assert_eq!(past_edge.direction, Direction::Left);
}

#[test]
fn ball_does_not_flip_in_the_open_field() {
    let mut b = Ball { x: 100_000, y: 0, direction: Direction::Right };
    b.step(500);
    assert_eq!(b.x, 175_000);
    assert_eq!(b.direction, Direction::Right);
}

#[test]
fn ball_bounces_back_and_forth() {
    let mut b = Ball::spawn();
    // 0 -> -300000, still inside.
    b.step(2000);
    assert_eq!(b.x, -300_000);
    assert_eq!(b.direction, Direction::Left);
    // -300000 -> -315000, past the left threshold: flips right.
    b.step(100);
    assert_eq!(b.x, -315_000);
    assert_eq!(b.direction, Direction::Right);
    // Travels right across the field: -315000 + 630000 = 315000, past the
    // right threshold: flips left.
    b.step(4200);
    assert_eq!(b.x, 315_000);
    assert_eq!(b.direction, Direction::Left);
}

#[test]
fn ball_survives_the_largest_frame_time() {
    let mut b = Ball::spawn();
    b.step(u32::MAX);
    assert_eq!(b.x, -(150_i64 * u32::MAX as i64));
    assert_eq!(b.direction, Direction::Right);
}

#[test]
fn paddle_moves_one_step_per_frame() {
    let mut p = Paddle::spawn(-295_000);
    p.step(UP);
    assert_eq!(p.y, PADDLE_SPEED);
    p.step(DOWN);
    assert_eq!(p.y, 0);
    p.step(NONE);
    assert_eq!(p.y, 0);
    assert_eq!(p.x, -295_000);
}

#[test]
fn paddle_stops_at_the_top_however_long_the_key_is_held() {
    let mut p = Paddle::spawn(295_000);
    // 40 frames reach the top (200000 / 5000); hold far longer.
    for _ in 0..1000 {
        p.step(UP);
        assert!(p.y <= PADDLE_MAX_Y);
        assert!(p.y >= PADDLE_MIN_Y);
    }
    assert_eq!(p.y, PADDLE_MAX_Y);
}

#[test]
fn paddle_stops_at_the_bottom_however_long_the_key_is_held() {
    let mut p = Paddle::spawn(295_000);
    for _ in 0..1000 {
        p.step(DOWN);
        assert!(p.y <= PADDLE_MAX_Y);
        assert!(p.y >= PADDLE_MIN_Y);
    }
    assert_eq!(p.y, PADDLE_MIN_Y);
}

#[test]
fn both_keys_held_cancel_out_except_at_the_top() {
    let mut p = Paddle::spawn(-295_000);
    p.step(BOTH);
    assert_eq!(p.y, 0);
    // At the very top the upward move is blocked, so the downward one wins.
    let mut q = Paddle { x: 0, y: PADDLE_MAX_Y };
    q.step(BOTH);
    assert_eq!(q.y, PADDLE_MAX_Y - PADDLE_SPEED);
}

#[test]
fn scene_step_moves_each_piece_by_its_own_rule() {
    let mut s = Scene::spawn();
    let before_line: Vec<_> = s.middle_line.clone();
    s.step(1000, UP, DOWN);
    assert_eq!(s.ball.x, -150_000);
    assert_eq!(s.ball.direction, Direction::Left);
    assert_eq!(s.left_paddle.y, PADDLE_SPEED);
    assert_eq!(s.right_paddle.y, -PADDLE_SPEED);
    assert_eq!(s.left_paddle.x, -295_000);
    assert_eq!(s.right_paddle.x, 295_000);
    assert_eq!(s.middle_line, before_line);
}
