use vstd::prelude::*;

verus! {

/// Every coordinate, length and velocity of the game lives within this bound
/// (in milliunits), which keeps all collision arithmetic far away from the
/// edges of the machine integers.
pub const COORD_LIMIT: i64 = 1_000_000_000_000;

/// An axis-aligned rectangle with its origin at `(x, y)`.  The y axis grows
/// upward, so `top` is the numerically larger y edge.  Degenerate (zero-area)
/// rectangles are valid; they never satisfy an intersection test.
#[derive(Debug, Default, Clone, Copy, PartialEq, Eq, Structural)]
pub struct Rect {
    /// The x-coordinate of the rectangle's origin (left edge).
    pub x: i64,
    /// The y-coordinate of the rectangle's origin (bottom edge).
    pub y: i64,
    /// The width of the rectangle.
    pub width: i64,
    /// The height of the rectangle.
    pub height: i64,
}

impl Rect {
    /// A rectangle is well formed when its sides are non-negative and all
    /// four edges stay within the coordinate bound.
    pub open spec fn wf(&self) -> bool {
        &&& 0 <= self.width
        &&& 0 <= self.height
        &&& -COORD_LIMIT <= self.x
        &&& self.x + self.width <= COORD_LIMIT
        &&& -COORD_LIMIT <= self.y
        &&& self.y + self.height <= COORD_LIMIT
    }

    /// The x-coordinate of the right edge, as a mathematical integer.
    pub open spec fn spec_right(&self) -> int {
        self.x + self.width
    }

    /// The y-coordinate of the top edge, as a mathematical integer.
    pub open spec fn spec_top(&self) -> int {
        self.y + self.height
    }

    /// Creates a rectangle from its origin and sides.
    pub fn new(x: i64, y: i64, width: i64, height: i64) -> (r: Rect)
        ensures
            r == (Rect { x, y, width, height }),
    {
        Rect { x, y, width, height }
    }

    /// The x-coordinate of the left edge.
    pub fn left(&self) -> (r: i64)
        ensures
            r == self.x,
    {
        self.x
    }

    /// The x-coordinate of the right edge.
    pub fn right(&self) -> (r: i64)
        requires
            self.wf(),
        ensures
            r as int == self.spec_right(),
    {
        self.x + self.width
    }

    /// The y-coordinate of the top edge.
    pub fn top(&self) -> (r: i64)
        requires
            self.wf(),
        ensures
            r as int == self.spec_top(),
    {
        self.y + self.height
    }

    /// The y-coordinate of the bottom edge.
    pub fn bottom(&self) -> (r: i64)
        ensures
            r == self.y,
    {
        self.y
    }
}

} // verus!
