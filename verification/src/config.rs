//! Placement of on-screen text elements.

use vstd::prelude::*;

verus! {

/// Where a text element (the clock readout, the frame counter) sits on
/// screen.
#[derive(Debug, Clone, Copy, PartialEq, Eq, Structural)]
pub enum Position {
    Center,
    Top,
    Bottom,
    Right,
    Left,
    TopRight,
    TopLeft,
    BottomRight,
    BottomLeft,
}

impl Position {
    /// True for the four corner placements, the only ones the frame counter
    /// accepts.
    pub fn is_corner(&self) -> (r: bool)
        ensures
            r == (self is TopRight || self is TopLeft || self is BottomRight
                || self is BottomLeft),
    {
        match self {
            Position::TopRight | Position::TopLeft | Position::BottomRight
                | Position::BottomLeft => true,
            _ => false,
        }
    }
}

} // verus!
