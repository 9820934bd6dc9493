use crate::ball::{Ball, EllasticCollision};
use crate::color::Color;
use crate::rect::Rect;
use vstd::prelude::*;

verus! {

/// The sensor strip along the arena's bottom edge.  Touching it signals a
/// terminal loss to the pipeline; it never changes the ball's velocity.
#[derive(Debug, Default, Clone, Copy, PartialEq, Eq, Structural)]
pub struct Bottom {
    /// The rectangular strip the sensor occupies.
    pub area: Rect,
    /// The color a renderer should draw the boundary with.
    pub color: Color,
}

impl Bottom {
    /// Creates a new `Bottom` sensor occupying `area`.
    pub fn new(area: Rect, color: Color) -> (b: Bottom)
        ensures
            b == (Bottom { area, color }),
    {
        Bottom { area, color }
    }
}

impl EllasticCollision for Bottom {
    open spec fn area_spec(&self) -> Rect {
        self.area
    }

    open spec fn collide_req(&self, b: Ball) -> bool {
        true
    }

    open spec fn reaction(&self, pre: Ball, post: Ball) -> bool {
        post == pre
    }

    fn area(&self) -> (r: Rect) {
        self.area
    }

    /// No velocity change: the sensor only reports contact, and the
    /// pipeline turns that report into the loss transition.
    fn collide(&self, ball: &mut Ball) {
    }
}

} // verus!
