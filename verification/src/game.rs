use crate::ball::{ball_after_mov, intersects, motion_in_bounds, Ball};
use crate::bottom::Bottom;
use crate::brick::Brick;
use crate::color::Color;
use crate::paddle::{paddle_moved, paddle_stage, Direction, Paddle};
use crate::rect::{Rect, COORD_LIMIT};
use crate::walls::{wall_stage, Wall, Walls};
use vstd::prelude::*;

verus! {

/// Width of a brick, in milliunits (14 arena units).
pub const BRICK_WIDTH: i64 = 14_000;

/// Height of a brick, in milliunits (5 arena units).
pub const BRICK_HEIGHT: i64 = 5_000;

/// Thickness of the vertical walls, in milliunits (2 arena units).
pub const WALL_W: i64 = 2_000;

/// Thickness of the top wall, in milliunits (2 arena units).
pub const WALL_H: i64 = 2_000;

/// The paddle's speed magnitude per movement event, in milliunits.
pub const PADDLE_SPEED: i64 = 8_000;

/// The ball's radius, in milliunits (3 arena units).
pub const BALL_RADIUS: i64 = 3_000;

/// The finite lifecycle of a round.  `Running` is initial; `Lost` and `Won`
/// are terminal: once reached, tick and input events change nothing, and
/// only whole-object reconstruction starts a new round.
#[derive(Debug, Clone, Copy, PartialEq, Eq, Structural)]
pub enum GameState {
    /// The game is running.
    Running,
    /// The player has lost the game.
    Lost,
    /// The player has won the game.
    Won,
}

impl Default for GameState {
    /// A round starts in the `Running` state.
    fn default() -> (s: Self)
        ensures
            s == GameState::Running,
    {
        GameState::Running
    }
}

/// A discrete event fed into the game by its external driver.
#[derive(Debug, Clone, Copy, PartialEq, Eq, Structural)]
pub enum GameEvent {
    /// Move the paddle one step in a direction.
    MovePad { direction: Direction },
    /// Advance the simulation by a time delta of `dt` quanta.
    Tick { dt: i64 },
}

/// The options a round is built from: arena bounds, requested brick count,
/// colors, and the ball's initial speed.
#[derive(Debug, Clone, Copy, PartialEq, Eq, Structural)]
pub struct GameOptions {
    /// The requested number of bricks, clamped at build time to what the
    /// layout region can hold.
    pub brick_count: u16,
    /// The color of the walls.
    pub walls_color: Color,
    /// The color of the paddle.
    pub paddle_color: Color,
    /// The rectangular area defining the whole arena.
    pub area: Rect,
    /// The ball's initial speed along each axis.
    pub ball_speed: i64,
}

impl Default for GameOptions {
    /// Empty options: zero bricks, default colors, a degenerate arena and a
    /// resting ball; every field is meant to be set through the builders.
    fn default() -> (o: Self)
        ensures
            o == (GameOptions {
                brick_count: 0,
                walls_color: Color::Reset,
                paddle_color: Color::Reset,
                area: Rect { x: 0, y: 0, width: 0, height: 0 },
                ball_speed: 0,
            }),
    {
        GameOptions {
            brick_count: 0,
            walls_color: Color::Reset,
            paddle_color: Color::Reset,
            area: Rect { x: 0, y: 0, width: 0, height: 0 },
            ball_speed: 0,
        }
    }
}

impl GameOptions {
    /// Sets the requested number of bricks.
    pub fn brick_count(self, count: u16) -> (o: Self)
        ensures
            o == (GameOptions { brick_count: count, ..self }),
    {
        GameOptions { brick_count: count, ..self }
    }

    /// Sets the color of the walls.
    pub fn walls_color(self, color: Color) -> (o: Self)
        ensures
            o == (GameOptions { walls_color: color, ..self }),
    {
        GameOptions { walls_color: color, ..self }
    }

    /// Sets the color of the paddle.
    pub fn paddle_color(self, color: Color) -> (o: Self)
        ensures
            o == (GameOptions { paddle_color: color, ..self }),
    {
        GameOptions { paddle_color: color, ..self }
    }

    /// Sets the arena area.
    pub fn area(self, area: Rect) -> (o: Self)
        ensures
            o == (GameOptions { area, ..self }),
    {
        GameOptions { area, ..self }
    }

    /// Sets the ball's initial speed along each axis.
    pub fn ball_speed(self, v: i64) -> (o: Self)
        ensures
            o == (GameOptions { ball_speed: v, ..self }),
    {
        GameOptions { ball_speed: v, ..self }
    }
}

/// The left edge of the brick-packing region: just inside the left wall.
pub open spec fn region_left(area: Rect) -> int {
    area.x + WALL_W
}

/// The bottom edge of the brick-packing region: the arena's upper half.
pub open spec fn region_bottom(area: Rect) -> int {
    area.y + area.height / 2
}

/// The width of the brick-packing region: the arena minus both side walls.
pub open spec fn region_width(area: Rect) -> int {
    area.width - 2 * WALL_W
}

/// The top edge of the brick-packing region: just under the top wall.
pub open spec fn region_top(area: Rect) -> int {
    region_bottom(area) + area.height / 2 - WALL_H
}

/// The symmetric padding that centers the grid's horizontal remainder.
pub open spec fn region_pad(area: Rect) -> int {
    region_width(area) % (BRICK_WIDTH as int) / 2
}

/// The leftmost x-coordinate a grid cell can have.
pub open spec fn grid_x_lo(area: Rect) -> int {
    region_left(area) + region_pad(area)
}

/// The rightmost x-coordinate a grid cell can have (inclusive).
pub open spec fn grid_x_hi(area: Rect) -> int {
    region_left(area) + region_width(area) - BRICK_WIDTH - region_pad(area)
}

/// The exclusive upper bound for a grid cell's y-coordinate.
pub open spec fn grid_y_end(area: Rect) -> int {
    region_top(area) - BRICK_HEIGHT
}

/// How many columns the grid has.
pub open spec fn grid_cols(area: Rect) -> int {
    if grid_x_lo(area) <= grid_x_hi(area) {
        (grid_x_hi(area) - grid_x_lo(area)) / (BRICK_WIDTH as int) + 1
    } else {
        0
    }
}

/// How many rows the grid has.
pub open spec fn grid_rows(area: Rect) -> int {
    if region_bottom(area) < grid_y_end(area) {
        (grid_y_end(area) - region_bottom(area) - 1) / (BRICK_HEIGHT as int) + 1
    } else {
        0
    }
}

/// How many candidate cells the grid has in all.
pub open spec fn grid_cells(area: Rect) -> int {
    grid_cols(area) * grid_rows(area)
}

/// `c` is one of the grid's candidate brick cells for this arena: a
/// brick-sized rectangle aligned to the grid inside the packing region.
pub open spec fn is_cell(area: Rect, c: Rect) -> bool {
    &&& c.width == BRICK_WIDTH
    &&& c.height == BRICK_HEIGHT
    &&& grid_x_lo(area) <= c.x <= grid_x_hi(area)
    &&& (c.x - grid_x_lo(area)) % (BRICK_WIDTH as int) == 0
    &&& region_bottom(area) <= c.y < grid_y_end(area)
    &&& (c.y - region_bottom(area)) % (BRICK_HEIGHT as int) == 0
}

/// The area-based cap on the brick count: the packing region's area
/// divided by one brick's area, floored.
pub open spec fn brick_cap(area: Rect) -> int {
    (area.height - WALL_H) * (area.width - 2 * WALL_W) / (2 * BRICK_WIDTH * BRICK_HEIGHT)
}

/// The paddle a round starts with: a fixed fraction of the arena (one
/// fiftieth tall, one tenth wide), anchored just inside the left and
/// bottom walls, travelling over the arena's interior width.
pub open spec fn initial_paddle(o: GameOptions) -> Paddle {
    Paddle {
        area: Rect {
            x: (o.area.x + WALL_W) as i64,
            y: (o.area.y + WALL_H) as i64,
            width: (o.area.width / 10) as i64,
            height: (o.area.height / 50) as i64,
        },
        vx: PADDLE_SPEED,
        dir: Direction::Left,
        min_x: (o.area.x + WALL_W) as i64,
        max_x: (o.area.x + o.area.width - WALL_W) as i64,
        color: o.paddle_color,
    }
}

/// The ball a round starts with: adjacent to the paddle's top-left corner,
/// offset by twice its radius horizontally and one radius vertically, and
/// launched diagonally with velocity `(speed, speed)`.
pub open spec fn initial_ball(o: GameOptions) -> Ball {
    let p = initial_paddle(o);
    Ball {
        x: (p.area.x + 2 * BALL_RADIUS) as i64,
        y: (p.area.y + p.area.height + BALL_RADIUS) as i64,
        radius: BALL_RADIUS,
        vx: o.ball_speed,
        vy: o.ball_speed,
    }
}

/// The wall set a round starts with: full-height side walls and a
/// full-width top wall, each of the fixed thickness.
pub open spec fn initial_walls(o: GameOptions) -> Walls {
    Walls {
        left: Wall {
            area: Rect { x: o.area.x, y: o.area.y, width: WALL_W, height: o.area.height },
        },
        right: Wall {
            area: Rect {
                x: (o.area.x + o.area.width - WALL_W) as i64,
                y: o.area.y,
                width: WALL_W,
                height: o.area.height,
            },
        },
        top: Wall {
            area: Rect {
                x: o.area.x,
                y: (o.area.y + o.area.height - WALL_H) as i64,
                width: o.area.width,
                height: WALL_H,
            },
        },
        color: o.walls_color,
    }
}

/// The loss sensor a round starts with: a one-unit-tall strip along the
/// arena's bottom edge.
pub open spec fn initial_bottom(o: GameOptions) -> Bottom {
    Bottom {
        area: Rect { x: o.area.x, y: o.area.y, width: o.area.width, height: 1_000 },
        color: Color::Gray,
    }
}

/// Relies on rand's `SliceRandom::shuffle`: an in-place Fisher-Yates pass
/// over the slice, driven by the thread-local generator.  Whatever the
/// drawn indices, the result holds exactly the elements the slice held.
#[verifier::external_body]
fn shuffle_cells(cells: &mut Vec<Rect>)
    ensures
        final(cells)@.len() == old(cells)@.len(),
        final(cells)@.to_multiset() == old(cells)@.to_multiset(),
{
    rand::seq::SliceRandom::shuffle(cells.as_mut_slice(), &mut rand::thread_rng());
}

impl GameOptions {
    /// Builds a fully initialized round from these options.
    ///
    /// The brick-packing region is tiled with a regular grid of fixed-size
    /// bricks, the horizontal remainder split as symmetric padding; the
    /// requested count is silently clamped to what fits; which cells are
    /// populated is drawn uniformly at random, so layouts are sparse but
    /// grid-aligned.  Paddle and ball start at fixed positions derived
    /// from the arena, the ball launched diagonally.
    pub fn build(self) -> (g: Game)
        requires
            self.area.wf(),
            0 <= self.area.x,
            0 <= self.area.y,
            5_000 <= self.area.width,
            4_000 <= self.area.height,
            self.area.x + self.area.width + 10_000 <= COORD_LIMIT,
            self.area.y + self.area.height + 10_000 <= COORD_LIMIT,
            0 <= self.ball_speed <= COORD_LIMIT,
        ensures
            g.wf(),
            g.state == GameState::Running,
            g.score == 0,
            g.area == self.area,
            g.paddle == initial_paddle(self),
            g.ball == initial_ball(self),
            g.walls == initial_walls(self),
            g.bottom == initial_bottom(self),
            forall|i: int|
                0 <= i < g.bricks@.len() ==> is_cell(self.area, (#[trigger] g.bricks@[i]).area),
            g.bricks@.len() == vstd::math::min(
                vstd::math::min(self.brick_count as int, brick_cap(self.area)),
                grid_cells(self.area),
            ),
    {
        let area = self.area;
        // Cap the requested count at what the packing region's area holds.
        let a1: i64 = area.height - WALL_H;
        let a2: i64 = area.width - 2 * WALL_W;
        proof {
            assert((a1 as u128) == a1 as int);
            assert((a2 as u128) == a2 as int);
            assert((a1 as int) * (a2 as int) <= COORD_LIMIT * (COORD_LIMIT as int))
                by (nonlinear_arith)
                requires
                    0 <= a1 as int <= COORD_LIMIT as int,
                    0 <= a2 as int <= COORD_LIMIT as int,
            ;
        }
        let avail: u128 = (a1 as u128) * (a2 as u128);
        // `avail` is twice the packing region's area, so divide by twice
        // one brick's area: 2 * BRICK_WIDTH * BRICK_HEIGHT.
        let cap128: u128 = avail / 140_000_000;
        proof {
            assert(2 * (BRICK_WIDTH as int) * (BRICK_HEIGHT as int) == 140_000_000);
            assert(cap128 as int == brick_cap(area));
        }
        let max_count: u16 = if cap128 > 65_535 {
            65_535
        } else {
            cap128 as u16
        };
        let count: u16 = if self.brick_count < max_count {
            self.brick_count
        } else {
            max_count
        };
        // Tile the packing region with the candidate grid.
        let bl: i64 = area.x + WALL_W;
        let half_h: i64 = (area.height as u64 / 2) as i64;
        let bb: i64 = area.y + half_h;
        let bw: i64 = area.width - 2 * WALL_W;
        let rt: i64 = bb + (half_h - WALL_H);
        let pad: i64 = ((bw as u64 % (BRICK_WIDTH as u64)) / 2) as i64;
        let x_lo: i64 = bl + pad;
        let x_hi: i64 = bl + bw - BRICK_WIDTH - pad;
        let y_end: i64 = rt - BRICK_HEIGHT;
        proof {
            assert(x_lo == grid_x_lo(area));
            assert(x_hi == grid_x_hi(area));
            assert(bb == region_bottom(area));
            assert(y_end == grid_y_end(area));
        }
        let mut coords: Vec<Rect> = Vec::new();
        let mut x: i64 = x_lo;
        let ghost mut c: int = 0;
        while x <= x_hi
            invariant
                area == self.area,
                area.wf(),
                0 <= area.x,
                0 <= area.y,
                x_lo == grid_x_lo(area),
                x_hi == grid_x_hi(area),
                bb == region_bottom(area),
                y_end == grid_y_end(area),
                grid_y_end(area) + BRICK_HEIGHT <= COORD_LIMIT,
                0 <= bb,
                0 <= x_lo,
                x_hi + BRICK_WIDTH <= COORD_LIMIT,
                0 <= c,
                x == grid_x_lo(area) + c * (BRICK_WIDTH as int),
                x_lo <= x,
                c > 0 ==> grid_x_lo(area) + (c - 1) * (BRICK_WIDTH as int) <= grid_x_hi(area),
                coords@.len() == c * grid_rows(area),
                forall|i: int|
                    0 <= i < coords@.len() ==> is_cell(area, #[trigger] coords@[i]),
            decreases x_hi + BRICK_WIDTH - x,
        {
            let ghost c0 = c;
            let ghost len0 = coords@.len();
            let mut y: i64 = bb;
            let ghost mut r: int = 0;
            while y < y_end
                invariant
                    area.wf(),
                    x_lo == grid_x_lo(area),
                    x_hi == grid_x_hi(area),
                    bb == region_bottom(area),
                    y_end == grid_y_end(area),
                    grid_y_end(area) + BRICK_HEIGHT <= COORD_LIMIT,
                    0 <= bb,
                    x_lo <= x <= x_hi,
                    x == grid_x_lo(area) + c0 * (BRICK_WIDTH as int),
                    0 <= c0,
                    0 <= r,
                    y == region_bottom(area) + r * (BRICK_HEIGHT as int),
                    bb <= y,
                    r > 0 ==> region_bottom(area) + (r - 1) * (BRICK_HEIGHT as int) < grid_y_end(area),
                    coords@.len() == len0 + r,
                    forall|i: int|
                        0 <= i < coords@.len() ==> is_cell(area, #[trigger] coords@[i]),
                decreases y_end + BRICK_HEIGHT - y,
            {
                coords.push(Rect { x, y, width: BRICK_WIDTH, height: BRICK_HEIGHT });
                proof {
                    assert((c0 * (BRICK_WIDTH as int)) % (BRICK_WIDTH as int) == 0) by (nonlinear_arith);
                    assert((r * (BRICK_HEIGHT as int)) % (BRICK_HEIGHT as int) == 0) by (nonlinear_arith);
                    assert(is_cell(area, Rect { x, y, width: BRICK_WIDTH, height: BRICK_HEIGHT }));
                    r = r + 1;
                }
                y = y + BRICK_HEIGHT;
            }
            proof {
                // The inner loop ran once per grid row.
                if r == 0 {
                    assert(grid_rows(area) == 0);
                } else {
                    let d = grid_y_end(area) - region_bottom(area);
                    assert((d - 1) / (BRICK_HEIGHT as int) == r - 1) by (nonlinear_arith)
                        requires
                            (r - 1) * (BRICK_HEIGHT as int) < d,
                            d <= r * (BRICK_HEIGHT as int),
                            0 < r,
                    ;
                }
                assert(r == grid_rows(area));
                c = c + 1;
                assert(len0 + grid_rows(area) == c * grid_rows(area)) by (nonlinear_arith)
                    requires
                        len0 == c0 * grid_rows(area),
                        c == c0 + 1,
                ;
            }
            x = x + BRICK_WIDTH;
        }
        proof {
            // The outer loop ran once per grid column.
            if c == 0 {
                assert(grid_cols(area) == 0);
            } else {
                let d = grid_x_hi(area) - grid_x_lo(area);
                assert(d / (BRICK_WIDTH as int) == c - 1) by (nonlinear_arith)
                    requires
                        (c - 1) * (BRICK_WIDTH as int) <= d,
                        d < c * (BRICK_WIDTH as int),
                        0 < c,
                ;
            }
            assert(c == grid_cols(area));
            assert(coords@.len() == grid_cells(area));
        }
        // Shuffle the candidate cells and keep the first `count` of them.
        let ghost cells_before = coords@;
        shuffle_cells(&mut coords);
        proof {
            broadcast use vstd::seq_lib::group_to_multiset_ensures;

            assert forall|m: int| 0 <= m < coords@.len() implies is_cell(
                area,
                #[trigger] coords@[m],
            ) by {
                assert(coords@.contains(coords@[m]));
                assert(cells_before.to_multiset().count(coords@[m]) > 0);
                assert(cells_before.contains(coords@[m]));
                let idx = choose|idx: int|
                    0 <= idx < cells_before.len() && cells_before[idx] == coords@[m];
                assert(is_cell(area, cells_before[idx]));
            }
        }
        let limit: usize = count as usize;
        let mut bricks: Vec<Brick> = Vec::new();
        let mut j: usize = 0;
        while j < coords.len() && j < limit
            invariant
                area == self.area,
                j <= coords@.len(),
                j <= limit,
                bricks@.len() == j,
                forall|i: int|
                    0 <= i < coords@.len() ==> is_cell(area, #[trigger] coords@[i]),
                forall|i: int|
                    0 <= i < bricks@.len() ==> is_cell(area, (#[trigger] bricks@[i]).area),
            decreases limit - j,
        {
            let cell = coords[j];
            bricks.push(Brick::new(cell));
            j = j + 1;
        }
        // Place the paddle just inside the left and bottom walls, and the
        // ball next to the paddle's top-left corner.
        let paddle_w: i64 = (area.width as u64 / 10) as i64;
        let paddle_h: i64 = (area.height as u64 / 50) as i64;
        let paddle_area = Rect { x: area.x + WALL_W, y: area.y + WALL_H, width: paddle_w, height: paddle_h };
        let paddle = Paddle::new(
            paddle_area,
            area.x + WALL_W,
            area.x + area.width - WALL_W,
            PADDLE_SPEED,
            self.paddle_color,
        );
        let walls = Walls::new(
            Rect { x: area.x, y: area.y, width: WALL_W, height: area.height },
            Rect { x: area.x + area.width - WALL_W, y: area.y, width: WALL_W, height: area.height },
            Rect { x: area.x, y: area.y + area.height - WALL_H, width: area.width, height: WALL_H },
            self.walls_color,
        );
        let ball = Ball::new(
            paddle_area.x + 2 * BALL_RADIUS,
            paddle_area.y + paddle_area.height + BALL_RADIUS,
            BALL_RADIUS,
            self.ball_speed,
            self.ball_speed,
        );
        let bottom = Bottom::new(
            Rect { x: area.x, y: area.y, width: area.width, height: 1_000 },
            Color::Gray,
        );
        let g = Game {
            area,
            state: GameState::Running,
            paddle,
            ball,
            walls,
            bottom,
            bricks,
            score: 0,
        };
        proof {
            assert(g.paddle == initial_paddle(self));
            assert(g.ball == initial_ball(self));
            assert forall|i: int| 0 <= i < g.bricks@.len() implies (
            #[trigger] g.bricks@[i]).area.wf() by {
                assert(is_cell(area, g.bricks@[i].area));
            }
            assert(g.wf());
        }
        g
    }
}

/// A brick survives a tick when the integrated ball does not intersect it.
pub open spec fn survives(b: Ball, br: Brick) -> bool {
    !intersects(b, br.area)
}

/// The bricks that survive the tick, in their original order.
pub open spec fn surviving(bricks: Seq<Brick>, b: Ball) -> Seq<Brick> {
    bricks.filter(|br: Brick| survives(b, br))
}

/// A vertical velocity after `hits` reversals: unchanged for an even count,
/// negated for an odd one.
pub open spec fn flip_if_odd(vy: int, hits: int) -> int {
    if hits % 2 == 0 {
        vy
    } else {
        -vy
    }
}

/// The ball after the brick pass of a tick: each of the `hits` bricks it
/// touched reversed its vertical velocity once; its position is untouched.
pub open spec fn ball_after_bricks(b: Ball, hits: int) -> Ball {
    Ball { vy: flip_if_odd(b.vy as int, hits) as i64, ..b }
}

/// All bricks in the sequence have well-formed areas.
pub open spec fn bricks_wf(bricks: Seq<Brick>) -> bool {
    forall|i: int| 0 <= i < bricks.len() ==> (#[trigger] bricks[i]).area.wf()
}

/// The game state and per-tick collision pipeline of one round.
#[derive(Debug, Default)]
pub struct Game {
    /// The rectangular area defining the whole arena.
    pub area: Rect,
    /// The current state of the round.
    pub state: GameState,
    /// The player-controlled paddle.
    pub paddle: Paddle,
    /// The ball.
    pub ball: Ball,
    /// The left, right and top walls.
    pub walls: Walls,
    /// The loss sensor along the bottom edge.
    pub bottom: Bottom,
    /// The live bricks, in a deterministic order.
    pub bricks: Vec<Brick>,
    /// The accumulated score: one point per removed brick.
    pub score: u16,
}

impl Game {
    /// All parts are well formed and the score leaves room for the live
    /// bricks, so scoring a brick can never overflow.
    pub open spec fn wf(&self) -> bool {
        &&& self.area.wf()
        &&& self.ball.wf()
        &&& self.paddle.wf()
        &&& self.walls.wf()
        &&& self.bottom.area.wf()
        &&& bricks_wf(self.bricks@)
        &&& self.score + self.bricks@.len() <= u16::MAX
    }
}

/// The tick's arithmetic stays within the machine integers: the integrated
/// position stays within the coordinate bound, and the ball's horizontal
/// velocity has room for the paddle's impulse in either direction.
pub open spec fn tick_in_bounds(g: Game, dt: int) -> bool {
    &&& motion_in_bounds(g.ball, dt)
    &&& g.ball.vx + g.paddle.vx * 315 / 1000 <= COORD_LIMIT
    &&& -COORD_LIMIT <= g.ball.vx - g.paddle.vx * 315 / 1000
}

/// The full contract of one tick of the pipeline, relating the game before
/// the tick to the game after it:
/// 1. the ball integrates one linear step;
/// 2. if it then touches the bottom sensor, the round is lost and nothing
///    else happens this tick — a lost ball must not also score;
/// 3. otherwise every intersecting brick is removed, each scoring one point
///    and reversing the vertical velocity once;
/// 4. if no brick is left, the round is won (checked before walls/paddle);
/// 5. the first intersecting wall, in the order left, right, top, reacts;
/// 6. the paddle reacts if the ball intersects it.
pub open spec fn tick_rel(pre: Game, post: Game, dt: int) -> bool {
    let b1 = ball_after_mov(pre.ball, dt);
    &&& post.area == pre.area
    &&& post.walls == pre.walls
    &&& post.bottom == pre.bottom
    &&& post.paddle == pre.paddle
    &&& if intersects(b1, pre.bottom.area) {
        &&& post.ball == b1
        &&& post.state == GameState::Lost
        &&& post.score == pre.score
        &&& post.bricks@ == pre.bricks@
    } else {
        let bricks2 = surviving(pre.bricks@, b1);
        let hits = pre.bricks@.len() - bricks2.len();
        &&& post.bricks@ == bricks2
        &&& post.score as int == pre.score + hits
        &&& post.state == (if bricks2.len() == 0 {
            GameState::Won
        } else {
            pre.state
        })
        &&& post.ball == paddle_stage(pre.paddle, wall_stage(pre.walls, ball_after_bricks(b1, hits)))
    }
}

impl Game {
    /// Advances the round by one tick: integrates the ball, then resolves
    /// collisions in the fixed order bottom sensor, bricks, walls, paddle.
    pub fn move_ball(&mut self, dt: i64)
        requires
            old(self).wf(),
            0 <= dt,
            tick_in_bounds(*old(self), dt as int),
        ensures
            tick_rel(*old(self), *final(self), dt as int),
            final(self).wf(),
            final(self).bricks@.len() <= old(self).bricks@.len(),
            final(self).score as int == old(self).score + old(self).bricks@.len()
                - final(self).bricks@.len(),
    {
        let ghost g0 = *self;
        // 1. Integrate, then check the loss sensor before anything else.
        self.ball.mov(dt);
        let ghost b1 = self.ball;
        if self.ball.collision(&self.bottom) {
            self.state = GameState::Lost;
            return;
        }
        // 2. Resolve every intersecting brick; collect the survivors into a
        // fresh vector rather than removing while iterating.
        let ghost pre_bricks = self.bricks@;
        let n = self.bricks.len();
        let mut survivors: Vec<Brick> = Vec::new();
        let mut i: usize = 0;
        proof {
            reveal(Seq::filter);
            assert(pre_bricks.subrange(0, 0) =~= Seq::<Brick>::empty());
            assert(self.ball == ball_after_bricks(b1, 0));
        }
        while i < n
            invariant
                i <= n,
                n == self.bricks@.len(),
                self.bricks@ == pre_bricks,
                bricks_wf(pre_bricks),
                self.area == g0.area,
                self.walls == g0.walls,
                self.bottom == g0.bottom,
                self.paddle == g0.paddle,
                self.state == g0.state,
                b1.wf(),
                survivors@.len() <= i,
                bricks_wf(survivors@),
                survivors@ == surviving(pre_bricks.subrange(0, i as int), b1),
                self.ball == ball_after_bricks(b1, i - survivors@.len()),
                self.score as int == g0.score + i - survivors@.len(),
                g0.score + pre_bricks.len() <= u16::MAX,
            decreases n - i,
        {
            let brick = self.bricks[i];
            let ghost k = i - survivors@.len();
            let ghost sub_i = pre_bricks.subrange(0, i as int);
            let ghost sub_i1 = pre_bricks.subrange(0, i + 1);
            let hit = self.ball.collision(&brick);
            proof {
                reveal(Seq::filter);
                assert(sub_i1.drop_last() =~= sub_i);
                assert(sub_i1.last() == brick);
                assert(hit == intersects(b1, brick.area));
                assert(surviving(sub_i1, b1) == if survives(b1, brick) {
                    surviving(sub_i, b1).push(brick)
                } else {
                    surviving(sub_i, b1)
                });
            }
            if hit {
                self.score = self.score + 1;
                proof {
                    assert(self.ball == ball_after_bricks(b1, k + 1));
                }
            } else {
                survivors.push(brick);
            }
            i = i + 1;
        }
        proof {
            assert(pre_bricks.subrange(0, n as int) =~= pre_bricks);
        }
        // 3. Win exactly when the last brick has just gone, before the wall
        // and paddle steps run.
        if survivors.len() == 0 {
            self.state = GameState::Won;
        }
        self.bricks = survivors;
        // 4. First intersecting wall reacts, in the order left, right, top.
        self.walls.collide(&mut self.ball);
        // 5. The paddle reacts if the ball touches it.
        let _ = self.ball.collision(&self.paddle);
    }
}

/// What an event demands of a running game before it is fed in: a tick's
/// arithmetic must stay within the machine integers.  A terminal game
/// demands nothing, since the event is then a no-op.
pub open spec fn event_ok(g: Game, e: GameEvent) -> bool {
    g.state == GameState::Running ==> (e matches GameEvent::Tick { dt } ==> 0 <= dt
        && tick_in_bounds(g, dt as int))
}

/// The full contract of one event: a terminal game absorbs every event
/// unchanged; a running game moves its paddle on an input event and runs
/// one tick of the pipeline on a tick event.
pub open spec fn event_rel(pre: Game, post: Game, e: GameEvent) -> bool {
    if pre.state != GameState::Running {
        post == pre
    } else {
        match e {
            GameEvent::MovePad { direction } => {
                &&& post.paddle == paddle_moved(pre.paddle, direction)
                &&& post.ball == pre.ball
                &&& post.state == pre.state
                &&& post.score == pre.score
                &&& post.bricks@ == pre.bricks@
                &&& post.area == pre.area
                &&& post.walls == pre.walls
                &&& post.bottom == pre.bottom
            },
            GameEvent::Tick { dt } => tick_rel(pre, post, dt as int),
        }
    }
}

/// The game reached from `pre` by feeding the whole event sequence, one
/// event at a time.
pub open spec fn event_chain(pre: Game, events: Seq<GameEvent>, post: Game) -> bool
    decreases events.len(),
{
    if events.len() == 0 {
        post == pre
    } else {
        exists|mid: Game|
            #[trigger] event_rel(pre, mid, events[0]) && event_chain(mid, events.drop_first(), post)
    }
}

impl Game {
    /// Processes one event: while the round is running, an input event
    /// moves the paddle and a tick event runs the collision pipeline; in a
    /// terminal state every event is a no-op.
    pub fn event(&mut self, game_event: GameEvent)
        requires
            old(self).wf(),
            event_ok(*old(self), game_event),
        ensures
            event_rel(*old(self), *final(self), game_event),
            final(self).wf(),
            old(self).state != GameState::Running ==> *final(self) == *old(self),
            final(self).bricks@.len() <= old(self).bricks@.len(),
            final(self).score as int == old(self).score + old(self).bricks@.len()
                - final(self).bricks@.len(),
    {
        if self.state != GameState::Running {
            return;
        }
        match game_event {
            GameEvent::MovePad { direction } => {
                self.paddle.mov(direction);
            },
            GameEvent::Tick { dt } => {
                self.move_ball(dt);
            },
        }
    }
}

/// Law: the terminal states absorb.  Once a round is `Lost` or `Won`,
/// feeding any sequence of further events leaves the whole game — state,
/// score, ball, paddle, bricks — unchanged.
pub proof fn lemma_terminal_states_absorb(pre: Game, events: Seq<GameEvent>, post: Game)
    requires
        pre.state != GameState::Running,
        event_chain(pre, events, post),
    ensures
        post == pre,
    decreases events.len(),
{
    if events.len() > 0 {
        let mid = choose|mid: Game|
            #[trigger] event_rel(pre, mid, events[0]) && event_chain(
                mid,
                events.drop_first(),
                post,
            );
        lemma_terminal_states_absorb(mid, events.drop_first(), post);
    }
}

/// Law: brick removal is monotonic across a round.  Over any event
/// sequence the live brick count never increases, and the score grows by
/// exactly the number of bricks removed.
pub proof fn lemma_bricks_monotonic(pre: Game, events: Seq<GameEvent>, post: Game)
    requires
        event_chain(pre, events, post),
    ensures
        post.bricks@.len() <= pre.bricks@.len(),
        post.score as int == pre.score + pre.bricks@.len() - post.bricks@.len(),
    decreases events.len(),
{
    broadcast use vstd::seq_lib::group_filter_ensures;

    if events.len() > 0 {
        let mid = choose|mid: Game|
            #[trigger] event_rel(pre, mid, events[0]) && event_chain(
                mid,
                events.drop_first(),
                post,
            );
        lemma_bricks_monotonic(mid, events.drop_first(), post);
    }
}

} // verus!
