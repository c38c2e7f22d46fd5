use pong::balls::MoveBallsSystem;
use pong::bounce::BounceSystem;
use pong::paddle::{PaddleInput, PaddleSystem};
use pong::pong::{
    Arena, Paddle, Point, Pong, Side, AXIS_FULL, BALL_RADIUS, BALL_VELOCITY_X, BALL_VELOCITY_Y,
    UNIT,
};
use pong::winner::WinnerSystem;

fn units(v: i64) -> i64 {
    v * UNIT
}

fn start() -> Pong {
    Pong::new(Arena::standard())
}

#[test]
fn standard_arena_values() {
    let a = Arena::standard();
    assert_eq!(a.width, units(100));
    assert_eq!(a.height, units(100));
    assert_eq!(a.paddle_width, units(4));
    assert_eq!(a.paddle_height, units(16));
    assert_eq!(a.ball_radius, units(2));
    assert_eq!(a.ball_speed_x, units(75));
    assert_eq!(a.ball_speed_y, units(50));
    assert_eq!(a.movement_scale, 1200);
}

#[test]
fn initial_positions() {
    let p = start();
    assert_eq!(p.left.position, Point { x: units(2), y: units(50) });
    assert_eq!(p.right.position, Point { x: units(98), y: units(50) });
    assert_eq!(p.left.side, Side::Left);
    assert_eq!(p.right.side, Side::Right);
    assert_eq!(p.ball.position, Point { x: units(50), y: units(50) });
    assert_eq!(p.ball.velocity_x, BALL_VELOCITY_X);
    assert_eq!(p.ball.velocity_y, BALL_VELOCITY_Y);
    assert_eq!(p.ball.radius, BALL_RADIUS);
}

#[test]
fn paddle_new_right_side() {
    let a = Arena::standard();
    let paddle = Paddle::new(Side::Right, &a);
    assert_eq!(paddle.side, Side::Right);
    assert_eq!(paddle.width, units(4));
    assert_eq!(paddle.height, units(16));
    assert_eq!(paddle.position, Point { x: units(98), y: units(50) });
}

#[test]
fn axis_value_by_side() {
    let input = PaddleInput { left: Some(250), right: None };
    assert_eq!(input.axis_value(Side::Left), Some(250));
    assert_eq!(input.axis_value(Side::Right), None);
}

#[test]
fn left_paddle_moves_down_full_axis() {
    let mut p = start();
    let mut system = PaddleSystem;
    system.run(&mut p, &PaddleInput { left: Some(-AXIS_FULL), right: None });
    assert_eq!(p.left.position.y, 48_800_000);
}

#[test]
fn right_paddle_unchanged_without_input() {
    let mut p = start();
    let mut system = PaddleSystem;
    system.run(&mut p, &PaddleInput { left: Some(AXIS_FULL), right: None });
    assert_eq!(p.right.position.y, units(50));
    assert_eq!(p.left.position.y, 51_200_000);
}

#[test]
fn paddle_clamped_at_both_ends() {
    let mut p = start();
    let mut system = PaddleSystem;
    system.run(&mut p, &PaddleInput { left: Some(i64::MAX), right: Some(i64::MIN) });
    assert_eq!(p.left.position.y, units(92));
    assert_eq!(p.right.position.y, units(8));
    for _ in 0..200 {
        system.run(&mut p, &PaddleInput { left: Some(AXIS_FULL), right: Some(-AXIS_FULL) });
        assert!(p.left.position.y <= units(92));
        assert!(p.right.position.y >= units(8));
    }
    assert_eq!(p.left.position.y, units(92));
    assert_eq!(p.right.position.y, units(8));
}

#[test]
fn ball_moves_by_velocity() {
    let mut p = start();
    let mut system = MoveBallsSystem;
    system.run(&mut p);
    assert_eq!(p.ball.position, Point { x: units(125), y: units(100) });
}

#[test]
fn left_paddle_bounces_ball() {
    let mut p = start();
    p.ball.position = Point { x: units(4), y: units(50) };
    p.ball.velocity_x = -units(75);
    p.ball.velocity_y = units(50);
    let mut system = BounceSystem;
    system.run(&mut p);
    assert_eq!(p.ball.velocity_x, units(75));
    assert_eq!(p.ball.velocity_y, units(50));
    system.run(&mut p);
    assert_eq!(p.ball.velocity_x, units(75));
}

#[test]
fn right_paddle_bounces_only_when_approaching() {
    let mut p = start();
    p.ball.position = Point { x: units(96), y: units(57) };
    p.ball.velocity_x = -units(75);
    let mut system = BounceSystem;
    system.run(&mut p);
    assert_eq!(p.ball.velocity_x, -units(75));
    p.ball.velocity_x = units(75);
    system.run(&mut p);
    assert_eq!(p.ball.velocity_x, -units(75));
}

#[test]
fn ball_beside_paddle_range_does_not_bounce() {
    let mut p = start();
    p.ball.position = Point { x: units(4), y: units(61) };
    p.ball.velocity_x = -units(75);
    let mut system = BounceSystem;
    system.run(&mut p);
    assert_eq!(p.ball.velocity_x, -units(75));
}

#[test]
fn bottom_wall_flips_vertical_velocity() {
    let mut p = start();
    p.ball.position = Point { x: units(50), y: units(1) };
    p.ball.velocity_y = -units(50);
    let mut system = BounceSystem;
    system.run(&mut p);
    assert_eq!(p.ball.velocity_y, units(50));
    system.run(&mut p);
    assert_eq!(p.ball.velocity_y, units(50));
}

#[test]
fn top_wall_flips_vertical_velocity() {
    let mut p = start();
    p.ball.position = Point { x: units(50), y: units(98) };
    p.ball.velocity_y = units(50);
    let mut system = BounceSystem;
    system.run(&mut p);
    assert_eq!(p.ball.velocity_y, -units(50));
    assert_eq!(p.ball.velocity_x, units(75));
}

#[test]
fn reset_after_miss_on_left() {
    let mut p = start();
    p.ball.position = Point { x: -units(1), y: units(30) };
    p.ball.velocity_x = -units(75);
    p.ball.velocity_y = -units(50);
    let mut system = WinnerSystem;
    let scored = system.run(&mut p);
    assert_eq!(scored, Some(Side::Right));
    assert_eq!(p.ball.position, Point { x: units(50), y: units(50) });
    assert_eq!(p.ball.velocity_x.abs(), units(75));
    assert_eq!(p.ball.velocity_y.abs(), units(50));
}

#[test]
fn reset_after_miss_on_right() {
    let mut p = start();
    p.ball.position = Point { x: units(101), y: units(70) };
    let mut system = WinnerSystem;
    let scored = system.run(&mut p);
    assert_eq!(scored, Some(Side::Left));
    assert_eq!(p.ball.position, Point { x: units(50), y: units(50) });
    assert_eq!(p.ball.velocity_x, -units(75));
    assert_eq!(p.ball.velocity_y, units(50));
}

#[test]
fn round_outcome_no_op_inside_arena() {
    let mut system = WinnerSystem;
    for x in [0, units(37), units(100)] {
        let mut p = start();
        p.ball.position = Point { x, y: units(20) };
        p.ball.velocity_x = -units(75);
        let before = p;
        assert_eq!(system.run(&mut p), None);
        assert_eq!(p, before);
    }
}

#[test]
fn speed_kept_over_many_frames() {
    let mut p = start();
    let mut scores = 0;
    for i in 0..500 {
        let axis = if i % 3 == 0 { Some(AXIS_FULL) } else { Some(-AXIS_FULL / 2) };
        let input = PaddleInput { left: axis, right: None };
        if p.frame(&input).is_some() {
            scores += 1;
        }
        assert_eq!(p.ball.velocity_x.abs(), units(75));
        assert_eq!(p.ball.velocity_y.abs(), units(50));
        assert!(p.ball.position.x >= 0 && p.ball.position.x <= units(100));
        assert!(p.ball.position.y >= -units(50) && p.ball.position.y <= units(150));
        assert!(p.left.position.y >= units(8) && p.left.position.y <= units(92));
    }
    assert!(scores > 0);
}

#[test]
fn first_frame_of_standard_game() {
    let mut p = start();
    let scored = p.frame(&PaddleInput { left: Some(-AXIS_FULL), right: None });
    // The ball moves to (125, 100): it touches the top wall moving up, so its
    // vertical velocity flips, and it has passed the right wall, so it is
    // served again from the centre towards the left.
    assert_eq!(scored, Some(Side::Left));
    assert_eq!(p.ball.position, Point { x: units(50), y: units(50) });
    assert_eq!(p.ball.velocity_x, -units(75));
    assert_eq!(p.ball.velocity_y, units(50));
    assert_eq!(p.left.position.y, 48_800_000);
    assert_eq!(p.right.position.y, units(50));
}
