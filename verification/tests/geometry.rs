use arkanoid::ball::Ball;
use arkanoid::brick::Brick;
use arkanoid::paddle::Direction;
use arkanoid::rect::Rect;

#[test]
fn test_coordinates() {
    let rect = Rect::new(10, 20, 30, 40);
    assert_eq!(rect.left(), 10);
    assert_eq!(rect.right(), 40);
    assert_eq!(rect.top(), 60);
    assert_eq!(rect.bottom(), 20);
}

#[test]
fn integration_is_linear_over_ticks() {
    let mut ball = Ball::new(1000, 2000, 3, 30, -40);
    ball.mov(2);
    ball.mov(2);
    ball.mov(2);
    // three steps of dt = 2 equal one displacement of velocity * 6
    assert_eq!(ball.x, 1000 + 30 * 6);
    assert_eq!(ball.y, 2000 - 40 * 6);
    assert_eq!(ball.vx, 30);
    assert_eq!(ball.vy, -40);
}

#[test]
fn zero_dt_moves_nothing() {
    let mut ball = Ball::new(5, 7, 3, 100, 200);
    ball.mov(0);
    assert_eq!(ball.x, 5);
    assert_eq!(ball.y, 7);
}

#[test]
fn boundary_distance_is_no_collision() {
    // distance^2 from (103,97) to the brick's closest point (103,100) is
    // 9 == radius^2: the boundary is excluded by the strict comparison.
    let brick = Brick::new(Rect::new(100, 100, 14, 5));
    let mut ball = Ball::new(103, 97, 3, 0, 2);
    assert_eq!(ball.dsquared(&brick), 9);
    assert!(!ball.collision(&brick));
    assert_eq!(ball.vy, 2);
}

#[test]
fn strictly_inside_the_radius_collides() {
    let brick = Brick::new(Rect::new(100, 100, 14, 5));
    let mut ball = Ball::new(103, 99, 3, 0, 2);
    assert_eq!(ball.dsquared(&brick), 1);
    assert!(ball.collision(&brick));
    assert_eq!(ball.vy, -2);
}

#[test]
fn intersection_is_mirror_symmetric() {
    // the same configuration reflected about the vertical axis gives the
    // same answers, near the boundary and strictly inside it
    let brick = Brick::new(Rect::new(-114, 100, 14, 5));
    let mut miss = Ball::new(-103, 97, 3, 0, 2);
    assert!(!miss.collision(&brick));
    let mut hit = Ball::new(-103, 99, 3, 0, 2);
    assert!(hit.collision(&brick));
    assert_eq!(hit.vy, -2);
}

#[test]
fn bounce_primitives_negate_one_axis() {
    let mut ball = Ball::new(0, 0, 3, 5, -7);
    ball.bouncev();
    assert_eq!((ball.vx, ball.vy), (5, 7));
    ball.bounceh();
    assert_eq!((ball.vx, ball.vy), (-5, 7));
    ball.dvx(11);
    assert_eq!((ball.vx, ball.vy), (6, 7));
}

#[test]
fn manual_nudge_moves_one_unit() {
    let mut ball = Ball::new(5000, 0, 3, 0, 0);
    ball.mov_dir(Direction::Left);
    assert_eq!(ball.x, 4000);
    ball.mov_dir(Direction::Right);
    ball.mov_dir(Direction::Right);
    assert_eq!(ball.x, 6000);
}
