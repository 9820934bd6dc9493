use vstd::prelude::*;

verus! {

/// A terminal-style named color.  The core only carries colors between the
/// configuration and the observers used by a renderer; it never interprets
/// them, and it deliberately does not depend on any drawing API's color type.
#[derive(Debug, Default, Clone, Copy, PartialEq, Eq, Structural)]
pub enum Color {
    #[default]
    Reset,
    Black,
    Red,
    Green,
    Yellow,
    Blue,
    Magenta,
    Cyan,
    Gray,
    DarkGray,
    LightRed,
    LightGreen,
    LightYellow,
    LightBlue,
    LightMagenta,
    LightCyan,
    White,
}

} // verus!
