//! The four ways the snake can face.

use vstd::prelude::*;

verus! {

/// A heading on the grid. The y axis points down the screen, so `Up` is the
/// direction of decreasing y.
#[derive(Clone, Copy, Debug, PartialEq, Eq, Structural)]
pub enum Direction {
    Up,
    Down,
    Left,
    Right,
}

impl Direction {
    /// Whether the heading runs along the y axis.
    pub open spec fn is_vertical(self) -> bool {
        self == Direction::Up || self == Direction::Down
    }

    /// The heading that points the other way on the same axis.
    pub open spec fn opposite(self) -> Direction {
        match self {
            Direction::Up => Direction::Down,
            Direction::Down => Direction::Up,
            Direction::Left => Direction::Right,
            Direction::Right => Direction::Left,
        }
    }

    /// Columns travelled by one step in this heading.
    pub open spec fn dx(self) -> int {
        match self {
            Direction::Left => -1,
            Direction::Right => 1,
            _ => 0,
        }
    }

    /// Rows travelled by one step in this heading.
    pub open spec fn dy(self) -> int {
        match self {
            Direction::Up => -1,
            Direction::Down => 1,
            _ => 0,
        }
    }

    /// Tells whether the heading runs along the y axis.
    pub fn vertical(&self) -> (b: bool)
        ensures
            b == self.is_vertical(),
    {
        match self {
            Direction::Up => true,
            Direction::Down => true,
            _ => false,
        }
    }
}

} // verus!
