use crate::ball::{intersects, with_bounced_h, with_bounced_v, Ball, EllasticCollision};
use crate::color::Color;
use crate::rect::Rect;
use vstd::prelude::*;

verus! {

/// One bounding wall of the arena.  Its reaction follows its shape: a wall
/// wider than tall is horizontal and reverses the ball's vertical velocity;
/// any other wall is vertical and reverses the horizontal velocity.
#[derive(Debug, Default, Clone, Copy, PartialEq, Eq, Structural)]
pub struct Wall {
    /// The rectangular area the wall occupies.
    pub area: Rect,
}

/// The arena's wall set: left, right and top.  The bottom edge carries no
/// wall; the bottom sensor handles it.
#[derive(Debug, Default, Clone, Copy, PartialEq, Eq, Structural)]
pub struct Walls {
    /// The left wall.
    pub left: Wall,
    /// The right wall.
    pub right: Wall,
    /// The top wall.
    pub top: Wall,
    /// The color a renderer should draw the walls with.
    pub color: Color,
}

/// The ball after one wall's reaction.
pub open spec fn wall_reacted(w: Wall, b: Ball) -> Ball {
    if w.area.height < w.area.width {
        with_bounced_v(b)
    } else {
        with_bounced_h(b)
    }
}

/// The ball after the wall stage of a tick: the first intersecting wall,
/// in the fixed order left, right, top, applies its reaction; at most one
/// wall reacts per tick, and a ball touching no wall is untouched.
pub open spec fn wall_stage(ws: Walls, b: Ball) -> Ball {
    if intersects(b, ws.left.area) {
        wall_reacted(ws.left, b)
    } else if intersects(b, ws.right.area) {
        wall_reacted(ws.right, b)
    } else if intersects(b, ws.top.area) {
        wall_reacted(ws.top, b)
    } else {
        b
    }
}

impl Walls {
    /// All three walls are well formed.
    pub open spec fn wf(&self) -> bool {
        &&& self.left.area.wf()
        &&& self.right.area.wf()
        &&& self.top.area.wf()
    }

    /// Creates the wall set from the three wall areas.
    pub fn new(left: Rect, right: Rect, top: Rect, color: Color) -> (w: Walls)
        ensures
            w == (Walls {
                left: Wall { area: left },
                right: Wall { area: right },
                top: Wall { area: top },
                color,
            }),
    {
        Walls { left: Wall { area: left }, right: Wall { area: right }, top: Wall { area: top }, color }
    }

    /// Runs the wall stage on the ball: tests the walls in the fixed order
    /// left, right, top and applies the first intersecting wall's reaction.
    pub fn collide(&self, ball: &mut Ball)
        requires
            old(ball).wf(),
            self.wf(),
            i64::MIN < old(ball).vx,
            i64::MIN < old(ball).vy,
        ensures
            *final(ball) == wall_stage(*self, *old(ball)),
            final(ball).wf(),
    {
        if ball.collision(&self.left) {
        } else if ball.collision(&self.right) {
        } else if ball.collision(&self.top) {
        }
    }
}

impl EllasticCollision for Wall {
    open spec fn area_spec(&self) -> Rect {
        self.area
    }

    open spec fn collide_req(&self, b: Ball) -> bool {
        &&& i64::MIN < b.vx
        &&& i64::MIN < b.vy
    }

    open spec fn reaction(&self, pre: Ball, post: Ball) -> bool {
        post == wall_reacted(*self, pre)
    }

    fn area(&self) -> (r: Rect) {
        self.area
    }

    /// A horizontal wall (wider than tall) reverses the vertical velocity;
    /// a vertical wall reverses the horizontal velocity.
    fn collide(&self, ball: &mut Ball) {
        if self.area.height < self.area.width {
            ball.bouncev();
        } else {
            ball.bounceh();
        }
    }
}

} // verus!
