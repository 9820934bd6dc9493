use arkanoid::ball::Ball;
use arkanoid::color::Color;
use arkanoid::paddle::{Direction, Paddle};
use arkanoid::rect::Rect;

#[test]
fn left_clamp_holds_under_repeated_input() {
    // paddle at x = 10 with min_x = 10: five moves left leave it at 10
    let mut paddle = Paddle::new(Rect::new(10, 2, 36, 4), 10, 360, 8, Color::White);
    for _ in 0..5 {
        paddle.mov(Direction::Left);
    }
    assert_eq!(paddle.area.x, 10);
}

#[test]
fn right_clamp_keeps_right_edge_inside() {
    let mut paddle = Paddle::new(Rect::new(320, 2, 36, 4), 2, 358, 8, Color::White);
    paddle.mov(Direction::Right);
    assert_eq!(paddle.area.x, 322);
    paddle.mov(Direction::Right);
    assert_eq!(paddle.area.x, 322);
}

#[test]
fn unclamped_moves_step_by_speed() {
    let mut paddle = Paddle::new(Rect::new(100, 2, 36, 4), 2, 358, 8, Color::White);
    paddle.mov(Direction::Left);
    assert_eq!(paddle.area.x, 92);
    paddle.mov(Direction::Right);
    assert_eq!(paddle.area.x, 100);
}

#[test]
fn paddle_reaction_uses_last_direction() {
    // speed 8000 milliunits: the impulse magnitude is 8000 * 315 / 1000 ==
    // 2520, exactly 0.315 of the speed
    let mut paddle = Paddle::new(Rect::new(2000, 2000, 36000, 4000), 2000, 358000, 8000, Color::White);
    let mut ball = Ball::new(10000, 5000, 3000, 0, -2000);
    assert!(ball.collision(&paddle));
    assert_eq!(ball.vx, -2520);
    assert_eq!(ball.vy, 2000);

    // after a move right, the recorded direction points the impulse right
    paddle.mov(Direction::Right);
    let mut ball2 = Ball::new(12000, 5000, 3000, 0, -2000);
    assert!(ball2.collision(&paddle));
    assert_eq!(ball2.vx, 2520);
    assert_eq!(ball2.vy, 2000);
}
