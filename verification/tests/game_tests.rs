use arkanoid::ball::Ball;
use arkanoid::bottom::Bottom;
use arkanoid::brick::Brick;
use arkanoid::color::Color;
use arkanoid::game::{Game, GameEvent, GameOptions, GameState};
use arkanoid::paddle::{Direction, Paddle};
use arkanoid::rect::Rect;
use arkanoid::walls::Walls;

/// A bare 360x180 arena with the given ball and bricks, and the paddle
/// parked in the bottom-left corner out of the ball's way.
fn arena_with(ball: Ball, bricks: Vec<Brick>) -> Game {
    Game {
        area: Rect::new(0, 0, 360, 180),
        state: GameState::Running,
        paddle: Paddle::new(Rect::new(2, 2, 36, 4), 2, 358, 8, Color::LightGreen),
        ball,
        walls: Walls::new(
            Rect::new(0, 0, 2, 180),
            Rect::new(358, 0, 2, 180),
            Rect::new(0, 178, 360, 2),
            Color::Blue,
        ),
        bottom: Bottom::new(Rect::new(0, 0, 360, 1), Color::Gray),
        bricks,
        score: 0,
    }
}

#[test]
fn brick_is_hit_only_strictly_inside_radius() {
    // arena 360x180, one brick at (100,100) 14x5, ball at (103,95) with
    // velocity (0,2): the first tick reaches the boundary exactly and does
    // not collide; the second tick collides, reverses vy and scores
    let brick = Brick::new(Rect::new(100, 100, 14, 5));
    let mut game = arena_with(Ball::new(103, 95, 3, 0, 2), vec![brick]);

    game.event(GameEvent::Tick { dt: 1 });
    assert_eq!((game.ball.x, game.ball.y), (103, 97));
    assert_eq!(game.ball.vy, 2);
    assert_eq!(game.score, 0);
    assert_eq!(game.bricks.len(), 1);

    game.event(GameEvent::Tick { dt: 1 });
    assert_eq!((game.ball.x, game.ball.y), (103, 99));
    assert_eq!(game.ball.vy, -2);
    assert_eq!(game.score, 1);
    assert_eq!(game.bricks.len(), 0);
}

#[test]
fn clearing_the_last_brick_wins_while_above_the_bottom() {
    // the ball removes the last brick in a tick where it is still above
    // the bottom sensor: the round is won, not lost
    let brick = Brick::new(Rect::new(100, 90, 14, 5));
    let mut game = arena_with(Ball::new(103, 97, 3, 0, -1), vec![brick]);
    game.event(GameEvent::Tick { dt: 1 });
    assert_eq!(game.state, GameState::Won);
    assert_eq!(game.score, 1);
    assert_eq!(game.bricks.len(), 0);
}

#[test]
fn losing_stops_the_tick_before_any_brick_scores() {
    // the ball touches the bottom sensor and a brick in the same tick: the
    // loss wins and the brick neither scores nor disappears
    let brick = Brick::new(Rect::new(47, 0, 14, 5));
    let mut game = arena_with(Ball::new(50, 3, 3, 0, -2), vec![brick]);
    game.event(GameEvent::Tick { dt: 1 });
    assert_eq!(game.state, GameState::Lost);
    assert_eq!(game.score, 0);
    assert_eq!(game.bricks.len(), 1);
    assert_eq!((game.ball.x, game.ball.y), (50, 1));
    assert_eq!(game.ball.vy, -2);
}

#[test]
fn terminal_states_absorb_all_events() {
    let brick = Brick::new(Rect::new(100, 100, 14, 5));
    let mut game = arena_with(Ball::new(50, 3, 3, 0, -2), vec![brick]);
    game.event(GameEvent::Tick { dt: 1 });
    assert_eq!(game.state, GameState::Lost);

    let (x, y, vy, score) = (game.ball.x, game.ball.y, game.ball.vy, game.score);
    let paddle_x = game.paddle.area.x;
    game.event(GameEvent::Tick { dt: 1 });
    game.event(GameEvent::MovePad { direction: Direction::Right });
    game.event(GameEvent::Tick { dt: 3 });
    game.event(GameEvent::MovePad { direction: Direction::Left });
    assert_eq!(game.state, GameState::Lost);
    assert_eq!((game.ball.x, game.ball.y, game.ball.vy, game.score), (x, y, vy, score));
    assert_eq!(game.paddle.area.x, paddle_x);
    assert_eq!(game.bricks.len(), 1);
}

#[test]
fn overlapping_bricks_all_score_in_one_tick() {
    // two overlapping bricks both satisfy the distance test in one pass:
    // both are removed, each scores, and vy reverses twice
    let bricks = vec![
        Brick::new(Rect::new(100, 100, 14, 5)),
        Brick::new(Rect::new(101, 100, 14, 5)),
    ];
    let mut game = arena_with(Ball::new(103, 97, 3, 0, 2), bricks);
    game.event(GameEvent::Tick { dt: 1 });
    assert_eq!(game.score, 2);
    assert_eq!(game.bricks.len(), 0);
    assert_eq!(game.ball.vy, 2);
    assert_eq!(game.state, GameState::Won);
}

#[test]
fn vertical_wall_reverses_horizontal_velocity() {
    let brick = Brick::new(Rect::new(100, 100, 14, 5));
    let mut game = arena_with(Ball::new(4, 50, 3, -2, 0), vec![brick]);
    game.event(GameEvent::Tick { dt: 1 });
    assert_eq!((game.ball.x, game.ball.y), (2, 50));
    assert_eq!(game.ball.vx, 2);
    assert_eq!(game.ball.vy, 0);
    assert_eq!(game.state, GameState::Running);
}

#[test]
fn horizontal_wall_reverses_vertical_velocity() {
    let brick = Brick::new(Rect::new(300, 100, 14, 5));
    let mut game = arena_with(Ball::new(50, 176, 3, 0, 2), vec![brick]);
    game.event(GameEvent::Tick { dt: 1 });
    assert_eq!((game.ball.x, game.ball.y), (50, 178));
    assert_eq!(game.ball.vy, -2);
    assert_eq!(game.ball.vx, 0);
}

#[test]
fn first_wall_in_order_wins_in_a_corner() {
    // a corner ball satisfies both the left and the top wall test; the
    // fixed order left, right, top lets only the left wall react
    let brick = Brick::new(Rect::new(300, 100, 14, 5));
    let mut game = arena_with(Ball::new(3, 177, 3, -2, 2), vec![brick]);
    game.event(GameEvent::Tick { dt: 1 });
    assert_eq!((game.ball.x, game.ball.y), (1, 179));
    assert_eq!(game.ball.vx, 2);
    assert_eq!(game.ball.vy, 2);
}

#[test]
fn paddle_moves_through_input_events() {
    let brick = Brick::new(Rect::new(100, 100, 14, 5));
    let mut game = arena_with(Ball::new(103, 95, 3, 0, 2), vec![brick]);
    game.event(GameEvent::MovePad { direction: Direction::Right });
    assert_eq!(game.paddle.area.x, 10);
    for _ in 0..5 {
        game.event(GameEvent::MovePad { direction: Direction::Left });
    }
    assert_eq!(game.paddle.area.x, 2);
}

#[test]
fn options_builders_set_their_fields() {
    let options = GameOptions::default()
        .brick_count(7)
        .walls_color(Color::Blue)
        .paddle_color(Color::LightGreen)
        .ball_speed(2000)
        .area(Rect::new(0, 0, 360000, 180000));
    assert_eq!(options.brick_count, 7);
    assert_eq!(options.walls_color, Color::Blue);
    assert_eq!(options.paddle_color, Color::LightGreen);
    assert_eq!(options.ball_speed, 2000);
    assert_eq!(options.area, Rect::new(0, 0, 360000, 180000));
}

#[test]
fn build_places_paddle_ball_walls_and_sensor() {
    let game = GameOptions::default()
        .brick_count(10)
        .walls_color(Color::Blue)
        .paddle_color(Color::LightGreen)
        .ball_speed(2000)
        .area(Rect::new(0, 0, 360000, 180000))
        .build();
    assert_eq!(game.state, GameState::Running);
    assert_eq!(game.score, 0);
    // paddle: a tenth of the width by a fiftieth of the height, just
    // inside the left and bottom walls
    assert_eq!(game.paddle.area, Rect::new(2000, 2000, 36000, 3600));
    assert_eq!(game.paddle.min_x, 2000);
    assert_eq!(game.paddle.max_x, 358000);
    assert_eq!(game.paddle.vx, 8000);
    // ball: two radii right of the paddle's left edge, one radius above
    // its top, launched diagonally
    assert_eq!((game.ball.x, game.ball.y), (8000, 8600));
    assert_eq!(game.ball.radius, 3000);
    assert_eq!((game.ball.vx, game.ball.vy), (2000, 2000));
    // walls and sensor
    assert_eq!(game.walls.left.area, Rect::new(0, 0, 2000, 180000));
    assert_eq!(game.walls.right.area, Rect::new(358000, 0, 2000, 180000));
    assert_eq!(game.walls.top.area, Rect::new(0, 178000, 360000, 2000));
    assert_eq!(game.bottom.area, Rect::new(0, 0, 360000, 1000));
}

#[test]
fn build_takes_the_requested_brick_count() {
    let game = GameOptions::default()
        .brick_count(10)
        .ball_speed(2000)
        .area(Rect::new(0, 0, 360000, 180000))
        .build();
    assert_eq!(game.bricks.len(), 10);
    for brick in game.bricks.iter() {
        // every brick sits on the centered grid inside the packing region
        assert_eq!(brick.area.width, 14000);
        assert_eq!(brick.area.height, 5000);
        assert!(brick.area.x >= 5000);
        assert!(brick.area.x + 14000 <= 355000);
        assert_eq!((brick.area.x - 5000) % 14000, 0);
        assert!(brick.area.y >= 90000);
        assert!(brick.area.y + 5000 < 178000);
        assert_eq!((brick.area.y - 90000) % 5000, 0);
    }
}

#[test]
fn build_caps_the_brick_count_at_the_grid() {
    // the 360x180 arena has a 25 by 17 grid of candidate cells
    let game = GameOptions::default()
        .brick_count(65535)
        .ball_speed(2000)
        .area(Rect::new(0, 0, 360000, 180000))
        .build();
    assert_eq!(game.bricks.len(), 425);
    let none = GameOptions::default()
        .brick_count(0)
        .ball_speed(2000)
        .area(Rect::new(0, 0, 360000, 180000))
        .build();
    assert_eq!(none.bricks.len(), 0);
}
