use crate::paddle::Direction;
use crate::rect::{Rect, COORD_LIMIT};
use vstd::prelude::*;

verus! {

/// A moving circular body: position of the center, radius, and velocity.
/// All fields are in milliunits (see the crate root).
#[derive(Debug, Default, Clone, Copy, PartialEq, Eq, Structural)]
pub struct Ball {
    /// The x-coordinate of the ball's center.
    pub x: i64,
    /// The y-coordinate of the ball's center.
    pub y: i64,
    /// The radius of the ball.
    pub radius: i64,
    /// The velocity of the ball along the x-axis.
    pub vx: i64,
    /// The velocity of the ball along the y-axis.
    pub vy: i64,
}

/// Clamps `v` to the closed interval `[lo, hi]`.
pub open spec fn clamp_int(v: int, lo: int, hi: int) -> int {
    if v < lo {
        lo
    } else if v > hi {
        hi
    } else {
        v
    }
}

/// The squared Euclidean distance from the ball's center to the closest
/// point of the rectangle (the center's coordinates clamped to the
/// rectangle's edges).
pub open spec fn dist2(b: Ball, r: Rect) -> int {
    let cx = clamp_int(b.x as int, r.x as int, r.spec_right());
    let cy = clamp_int(b.y as int, r.y as int, r.spec_top());
    (b.x - cx) * (b.x - cx) + (b.y - cy) * (b.y - cy)
}

/// The collision predicate: the ball intersects the rectangle when the
/// squared distance to the closest point is strictly below the squared
/// radius.  A distance exactly equal to the radius is *no* collision:
/// the boundary is excluded.
pub open spec fn intersects(b: Ball, r: Rect) -> bool {
    dist2(b, r) < b.radius * b.radius
}

/// The ball after one Euler integration step of length `dt`.
pub open spec fn ball_after_mov(b: Ball, dt: int) -> Ball {
    Ball { x: (b.x + b.vx * dt) as i64, y: (b.y + b.vy * dt) as i64, ..b }
}

/// The ball with its vertical velocity reversed.
pub open spec fn with_bounced_v(b: Ball) -> Ball {
    Ball { vy: (-b.vy) as i64, ..b }
}

/// The ball with its horizontal velocity reversed.
pub open spec fn with_bounced_h(b: Ball) -> Ball {
    Ball { vx: (-b.vx) as i64, ..b }
}

/// The ball with `d` added to its horizontal velocity.
pub open spec fn with_dvx(b: Ball, d: int) -> Ball {
    Ball { vx: (b.vx + d) as i64, ..b }
}

/// Both integrated coordinates stay within the coordinate bound, so the
/// step and every later collision test fit in the machine integers.
pub open spec fn motion_in_bounds(b: Ball, dt: int) -> bool {
    &&& -COORD_LIMIT <= b.x + b.vx * dt <= COORD_LIMIT
    &&& -COORD_LIMIT <= b.y + b.vy * dt <= COORD_LIMIT
}

impl Ball {
    /// A ball is well formed when its radius is positive and all its fields
    /// stay within the coordinate bound.
    pub open spec fn wf(&self) -> bool {
        &&& 0 < self.radius <= COORD_LIMIT
        &&& -COORD_LIMIT <= self.x <= COORD_LIMIT
        &&& -COORD_LIMIT <= self.y <= COORD_LIMIT
        &&& -COORD_LIMIT <= self.vx <= COORD_LIMIT
        &&& -COORD_LIMIT <= self.vy <= COORD_LIMIT
    }

    /// Creates a new `Ball` from its center, radius and velocity.
    pub fn new(x: i64, y: i64, radius: i64, vx: i64, vy: i64) -> (b: Ball)
        ensures
            b == (Ball { x, y, radius, vx, vy }),
    {
        Ball { x, y, radius, vx, vy }
    }

    /// Moves the ball by one linear step: `x += vx * dt`, `y += vy * dt`.
    /// The step is exactly linear; no collision is consulted here.
    pub fn mov(&mut self, dt: i64)
        requires
            old(self).wf(),
            0 <= dt,
            motion_in_bounds(*old(self), dt as int),
        ensures
            *final(self) == ball_after_mov(*old(self), dt as int),
            final(self).x as int == old(self).x + old(self).vx * dt,
            final(self).y as int == old(self).y + old(self).vy * dt,
            final(self).wf(),
    {
        self.x = self.x + self.vx * dt;
        self.y = self.y + self.vy * dt;
    }

    /// Nudges the ball by one whole unit in the given direction; a manual
    /// stand-in for `mov` when the ball is driven by hand.
    pub fn mov_dir(&mut self, direction: Direction)
        requires
            old(self).wf(),
        ensures
            *final(self) == (match direction {
                Direction::Left => Ball { x: (old(self).x - 1000) as i64, ..*old(self) },
                Direction::Right => Ball { x: (old(self).x + 1000) as i64, ..*old(self) },
            }),
    {
        match direction {
            Direction::Left => {
                self.x = self.x - 1000;
            },
            Direction::Right => {
                self.x = self.x + 1000;
            },
        }
    }

    /// Reverses the ball's vertical velocity: the sole vertical bounce
    /// primitive.
    pub fn bouncev(&mut self)
        requires
            i64::MIN < old(self).vy,
        ensures
            *final(self) == with_bounced_v(*old(self)),
            final(self).vy as int == -(old(self).vy as int),
    {
        self.vy = -self.vy;
    }

    /// Reverses the ball's horizontal velocity: the sole horizontal bounce
    /// primitive.
    pub fn bounceh(&mut self)
        requires
            i64::MIN < old(self).vx,
        ensures
            *final(self) == with_bounced_h(*old(self)),
            final(self).vx as int == -(old(self).vx as int),
    {
        self.vx = -self.vx;
    }

    /// Adds `dvx` to the ball's horizontal velocity; used only by the
    /// paddle's reaction.
    pub fn dvx(&mut self, dvx: i64)
        requires
            i64::MIN <= old(self).vx + dvx <= i64::MAX,
        ensures
            *final(self) == with_dvx(*old(self), dvx as int),
            final(self).vx as int == old(self).vx + dvx,
    {
        self.vx = self.vx + dvx;
    }

    /// The squared distance from the ball's center to the closest point of
    /// the obstacle's bounding box.
    pub fn dsquared<EC: EllasticCollision>(&self, shape: &EC) -> (d: i128)
        requires
            -COORD_LIMIT <= self.x <= COORD_LIMIT,
            -COORD_LIMIT <= self.y <= COORD_LIMIT,
            shape.area_spec().wf(),
        ensures
            d as int == dist2(*self, shape.area_spec()),
    {
        let area = shape.area();
        let right = area.x + area.width;
        let top = area.y + area.height;
        let cx = if self.x < area.x {
            area.x
        } else if self.x > right {
            right
        } else {
            self.x
        };
        let cy = if self.y < area.y {
            area.y
        } else if self.y > top {
            top
        } else {
            self.y
        };
        let dx = (self.x - cx) as i128;
        let dy = (self.y - cy) as i128;
        assert(-2 * COORD_LIMIT <= dx <= 2 * COORD_LIMIT);
        assert(-2 * COORD_LIMIT <= dy <= 2 * COORD_LIMIT);
        assert(dx * dx + dy * dy <= 8 * COORD_LIMIT * COORD_LIMIT && 0 <= dx * dx && 0 <= dy
            * dy) by (nonlinear_arith)
            requires
                -2 * COORD_LIMIT <= dx <= 2 * COORD_LIMIT,
                -2 * COORD_LIMIT <= dy <= 2 * COORD_LIMIT,
        ;
        dx * dx + dy * dy
    }

    /// Tests the ball against an obstacle and, on contact, applies the
    /// obstacle's reaction.  Returns whether a collision happened; on a
    /// miss the ball is untouched.
    pub fn collision<EC: EllasticCollision>(&mut self, shape: &EC) -> (hit: bool)
        requires
            old(self).wf(),
            shape.area_spec().wf(),
            shape.collide_req(*old(self)),
        ensures
            hit == intersects(*old(self), shape.area_spec()),
            hit ==> shape.reaction(*old(self), *final(self)),
            !hit ==> *final(self) == *old(self),
    {
        let d = self.dsquared(shape);
        let r = self.radius as i128;
        assert(0 <= r * r <= COORD_LIMIT * COORD_LIMIT) by (nonlinear_arith)
            requires
                0 < r <= COORD_LIMIT,
        ;
        if d < r * r {
            shape.collide(self);
            true
        } else {
            false
        }
    }
}

/// The coordinate reached from `x0` after `n` integration steps, each
/// adding `v * dt`, exactly as `Ball::mov` performs them.
pub open spec fn position_after_ticks(x0: int, v: int, dt: int, n: nat) -> int
    decreases n,
{
    if n == 0 {
        x0
    } else {
        position_after_ticks(x0, v, dt, (n - 1) as nat) + v * dt
    }
}

/// Law: with no obstacle in range, integration is exactly linear.  The
/// position after `n` steps of length `dt` equals the initial position
/// plus the velocity times the total elapsed time `dt * n`.
pub proof fn lemma_integration_linear(x0: int, v: int, dt: int, n: nat)
    ensures
        position_after_ticks(x0, v, dt, n) == x0 + v * (dt * n),
    decreases n,
{
    if n > 0 {
        lemma_integration_linear(x0, v, dt, (n - 1) as nat);
        assert(x0 + v * (dt * (n - 1)) + v * dt == x0 + v * (dt * n)) by (nonlinear_arith);
    } else {
        assert(v * (dt * 0) == 0) by (nonlinear_arith);
    }
}

/// Law: the collision predicate is symmetric under reflecting the ball and
/// the rectangle about the vertical axis (negating every x-coordinate).
pub proof fn lemma_intersects_reflect_horizontal(b: Ball, r: Rect)
    requires
        b.wf(),
        r.wf(),
    ensures
        ({
            let b2 = Ball { x: (-b.x) as i64, ..b };
            let r2 = Rect { x: (-(r.x + r.width)) as i64, ..r };
            intersects(b2, r2) == intersects(b, r)
        }),
{
    let b2 = Ball { x: (-b.x) as i64, ..b };
    let r2 = Rect { x: (-(r.x + r.width)) as i64, ..r };
    let cx = clamp_int(b.x as int, r.x as int, r.spec_right());
    let cx2 = clamp_int(b2.x as int, r2.x as int, r2.spec_right());
    assert(cx2 == -cx);
    assert((b2.x - cx2) * (b2.x - cx2) == (b.x - cx) * (b.x - cx)) by (nonlinear_arith)
        requires
            b2.x as int == -(b.x as int),
            cx2 == -cx,
    ;
}

/// Law: the collision predicate is symmetric under reflecting the ball and
/// the rectangle about the horizontal axis (negating every y-coordinate).
pub proof fn lemma_intersects_reflect_vertical(b: Ball, r: Rect)
    requires
        b.wf(),
        r.wf(),
    ensures
        ({
            let b2 = Ball { y: (-b.y) as i64, ..b };
            let r2 = Rect { y: (-(r.y + r.height)) as i64, ..r };
            intersects(b2, r2) == intersects(b, r)
        }),
{
    let b2 = Ball { y: (-b.y) as i64, ..b };
    let r2 = Rect { y: (-(r.y + r.height)) as i64, ..r };
    let cy = clamp_int(b.y as int, r.y as int, r.spec_top());
    let cy2 = clamp_int(b2.y as int, r2.y as int, r2.spec_top());
    assert(cy2 == -cy);
    assert((b2.y - cy2) * (b2.y - cy2) == (b.y - cy) * (b.y - cy)) by (nonlinear_arith)
        requires
            b2.y as int == -(b.y as int),
            cy2 == -cy,
    ;
}

/// Law: the boundary is excluded.  A ball whose center sits at a distance
/// from the rectangle's closest point exactly equal to its radius does not
/// collide: the test is a strict inequality.
pub proof fn lemma_boundary_excluded(b: Ball, r: Rect)
    ensures
        dist2(b, r) == b.radius * b.radius ==> !intersects(b, r),
{
}

/// The capability every obstacle implements to take part in collision
/// resolution.  `collide` is invoked by the pipeline only after the
/// geometric test has confirmed contact; it applies the obstacle's
/// reaction to the ball and never re-tests geometry itself.
pub trait EllasticCollision: Sized {
    /// The obstacle's current collision geometry, at the spec level.
    spec fn area_spec(&self) -> Rect;

    /// What the reaction needs of the ball so that its velocity updates
    /// stay within the machine integers.
    spec fn collide_req(&self, b: Ball) -> bool;

    /// How the ball after the reaction relates to the ball before it.
    spec fn reaction(&self, pre: Ball, post: Ball) -> bool;

    /// The obstacle's current bounding box.
    fn area(&self) -> (r: Rect)
        ensures
            r == self.area_spec(),
    ;

    /// Applies the obstacle's collision reaction to the ball.
    fn collide(&self, ball: &mut Ball)
        requires
            self.collide_req(*old(ball)),
        ensures
            self.reaction(*old(ball), *final(ball)),
    ;
}

} // verus!
