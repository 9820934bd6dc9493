//! Core of a breakout-style game: a ball bounces inside a bounded arena,
//! deflecting off walls, a player-controlled paddle and destructible bricks,
//! until the player clears all bricks (won) or the ball passes the bottom
//! boundary (lost).
//!
//! All geometry is carried in fixed-point *milliunits*: one arena unit is
//! 1000 milliunits, so fractional design constants (a paddle one tenth of the
//! arena wide, an impulse factor of 0.315) are exact integers here.  Every
//! public operation carries a contract; the collision pipeline, the paddle
//! clamping, the state machine and the round layout are verified against
//! those contracts.

pub mod ball;
pub mod bottom;
pub mod brick;
pub mod color;
pub mod game;
pub mod paddle;
pub mod rect;
pub mod walls;
