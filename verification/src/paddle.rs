use crate::ball::{intersects, with_bounced_v, with_dvx, Ball, EllasticCollision};
use crate::color::Color;
use crate::rect::{Rect, COORD_LIMIT};
use vstd::prelude::*;

verus! {

/// The direction in which the paddle can move.
#[derive(Debug, Default, Clone, Copy, PartialEq, Eq, Structural)]
pub enum Direction {
    #[default]
    Left,
    Right,
}

/// The player-controlled paddle.  Its last commanded direction is collision
/// state, not just rendering state: the impulse the paddle imparts to the
/// ball takes its sign from it, even on ticks where the paddle is already
/// resting against a clamp boundary.
#[derive(Debug, Default, Clone, Copy, PartialEq, Eq, Structural)]
pub struct Paddle {
    /// The rectangular area occupied by the paddle.
    pub area: Rect,
    /// The horizontal speed magnitude of the paddle, per movement event.
    pub vx: i64,
    /// The last commanded direction of the paddle.
    pub dir: Direction,
    /// The minimum x-coordinate the paddle's left edge can reach.
    pub min_x: i64,
    /// The maximum x-coordinate the paddle's right edge can reach.
    pub max_x: i64,
    /// The color a renderer should draw the paddle with.
    pub color: Color,
}

/// The impulse the paddle imparts to the ball's horizontal velocity:
/// sign of the last commanded direction times `speed * 0.315`, the fixed
/// empirical product of a 1.5 angular factor, a 0.7 mass factor and a 0.3
/// friction factor.  In milliunits, 0.315 is the exact ratio 315/1000.
pub open spec fn impulse(p: Paddle) -> int {
    let magnitude = p.vx * 315 / 1000;
    if p.dir == Direction::Left {
        -magnitude
    } else {
        magnitude
    }
}

/// The ball after the paddle stage of a tick: if the ball intersects the
/// paddle, the paddle's impulse is added to the ball's horizontal velocity
/// and its vertical velocity is reversed; otherwise the ball is untouched.
pub open spec fn paddle_stage(p: Paddle, b: Ball) -> Ball {
    if intersects(b, p.area) {
        with_bounced_v(with_dvx(b, impulse(p)))
    } else {
        b
    }
}

/// The paddle after one movement event: the area's x nudged by the paddle's
/// speed in the given direction, clamped to `[min_x, max_x - width]`, and
/// the direction recorded as the new last direction.
pub open spec fn paddle_moved(p: Paddle, direction: Direction) -> Paddle {
    let nx = match direction {
        Direction::Left => {
            if p.area.x - p.vx <= p.min_x {
                p.min_x as int
            } else {
                p.area.x - p.vx
            }
        },
        Direction::Right => {
            if p.area.x + p.vx + p.area.width > p.max_x {
                p.max_x - p.area.width
            } else {
                p.area.x + p.vx
            }
        },
    };
    Paddle { area: Rect { x: nx as i64, ..p.area }, dir: direction, ..p }
}

/// The paddle after a whole sequence of movement events.
pub open spec fn paddle_after_inputs(p: Paddle, dirs: Seq<Direction>) -> Paddle
    decreases dirs.len(),
{
    if dirs.len() == 0 {
        p
    } else {
        paddle_after_inputs(paddle_moved(p, dirs[0]), dirs.drop_first())
    }
}

impl Paddle {
    /// A paddle is well formed when its area is, its speed is a bounded
    /// magnitude, its travel bounds are bounded, and it sits clamped within
    /// them.
    pub open spec fn wf(&self) -> bool {
        &&& self.area.wf()
        &&& 0 <= self.vx <= COORD_LIMIT
        &&& -COORD_LIMIT <= self.min_x
        &&& self.max_x <= COORD_LIMIT
        &&& self.min_x <= self.area.x
        &&& self.area.x + self.area.width <= self.max_x
    }

    /// Creates a new `Paddle` occupying `area`, with travel bounds
    /// `[min_x, max_x]`, speed magnitude `vx`, and an initial last
    /// direction of `Left`.
    pub fn new(area: Rect, min_x: i64, max_x: i64, vx: i64, color: Color) -> (p: Paddle)
        ensures
            p == (Paddle { area, min_x, max_x, dir: Direction::Left, vx, color }),
    {
        Paddle { area, min_x, max_x, dir: Direction::Left, vx, color }
    }

    /// Moves the paddle one step in the given direction, clamping its area
    /// to the travel bounds, and records the direction.
    pub fn mov(&mut self, direction: Direction)
        requires
            old(self).wf(),
        ensures
            *final(self) == paddle_moved(*old(self), direction),
            final(self).wf(),
            final(self).min_x <= final(self).area.x,
            final(self).area.x + final(self).area.width <= final(self).max_x,
    {
        match direction {
            Direction::Left => {
                self.area.x = self.area.x - self.vx;
                if self.area.x <= self.min_x {
                    self.area.x = self.min_x;
                }
            },
            Direction::Right => {
                self.area.x = self.area.x + self.vx;
                if self.area.x + self.area.width > self.max_x {
                    self.area.x = self.max_x - self.area.width;
                }
            },
        }
        self.dir = direction;
    }
}

/// One movement event keeps a well-formed paddle well formed, and in
/// particular clamped.
pub proof fn lemma_paddle_moved_wf(p: Paddle, direction: Direction)
    requires
        p.wf(),
    ensures
        paddle_moved(p, direction).wf(),
{
}

/// Law: the paddle position is always clamped.  After any sequence of
/// movement events applied to a well-formed paddle, the paddle's left edge
/// is at least `min_x` and its right edge is at most `max_x`.
pub proof fn lemma_paddle_always_clamped(p: Paddle, dirs: Seq<Direction>)
    requires
        p.wf(),
    ensures
        paddle_after_inputs(p, dirs).wf(),
        p.min_x <= paddle_after_inputs(p, dirs).area.x,
        paddle_after_inputs(p, dirs).area.x + paddle_after_inputs(p, dirs).area.width
            <= p.max_x,
    decreases dirs.len(),
{
    if dirs.len() > 0 {
        lemma_paddle_moved_wf(p, dirs[0]);
        lemma_paddle_always_clamped(paddle_moved(p, dirs[0]), dirs.drop_first());
    }
}

impl EllasticCollision for Paddle {
    open spec fn area_spec(&self) -> Rect {
        self.area
    }

    open spec fn collide_req(&self, b: Ball) -> bool {
        &&& 0 <= self.vx <= COORD_LIMIT
        &&& i64::MIN < b.vy
        &&& i64::MIN <= b.vx + impulse(*self) <= i64::MAX
    }

    open spec fn reaction(&self, pre: Ball, post: Ball) -> bool {
        post == with_bounced_v(with_dvx(pre, impulse(*self)))
    }

    fn area(&self) -> (r: Rect) {
        self.area
    }

    /// Imparts the direction-signed impulse to the ball's horizontal
    /// velocity, then reverses its vertical velocity.
    fn collide(&self, ball: &mut Ball) {
        let magnitude = ((self.vx as u64) * 315 / 1000) as i64;
        let d = match self.dir {
            Direction::Left => -magnitude,
            Direction::Right => magnitude,
        };
        assert(d as int == impulse(*self));
        ball.dvx(d);
        ball.bouncev();
    }
}

} // verus!
