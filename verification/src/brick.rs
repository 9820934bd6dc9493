use crate::ball::{with_bounced_v, Ball, EllasticCollision};
use crate::rect::Rect;
use vstd::prelude::*;

verus! {

/// A destructible brick.  It has no state beyond its area: the pipeline
/// removes it from the round's live collection on its first collision.
#[derive(Debug, Default, Clone, Copy, PartialEq, Eq, Structural)]
pub struct Brick {
    /// The rectangular area occupied by the brick.
    pub area: Rect,
}

impl Brick {
    /// Creates a new `Brick` occupying `area`.
    pub fn new(area: Rect) -> (b: Brick)
        ensures
            b == (Brick { area }),
    {
        Brick { area }
    }
}

impl EllasticCollision for Brick {
    open spec fn area_spec(&self) -> Rect {
        self.area
    }

    open spec fn collide_req(&self, b: Ball) -> bool {
        i64::MIN < b.vy
    }

    open spec fn reaction(&self, pre: Ball, post: Ball) -> bool {
        post == with_bounced_v(pre)
    }

    fn area(&self) -> (r: Rect) {
        self.area
    }

    /// Reverses the ball's vertical velocity.  Removing the brick and
    /// counting the score is the caller's part of the reaction.
    fn collide(&self, ball: &mut Ball) {
        ball.bouncev();
    }
}

} // verus!
