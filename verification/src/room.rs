//! Rectangular room descriptors: transient carve instructions for a level.

use vstd::prelude::*;

verus! {

/// A rectangle in grid-cell units: origin `(x, y)` and extent `(w, h)`.
/// A room is a carve instruction, consumed by `Level::add_room_to_map`;
/// it is not retained by the level afterwards.
#[derive(Clone, Copy, Debug, PartialEq, Eq, Structural)]
pub struct Room {
    pub x: usize,
    pub y: usize,
    pub w: usize,
    pub h: usize,
}

impl Room {
    /// A room's extent must be positive for it to describe any cells.
    pub open spec fn wf(self) -> bool {
        self.w > 0 && self.h > 0
    }

    /// The room lies fully inside a grid of the given dimensions.
    pub open spec fn fits(self, width: int, height: int) -> bool {
        self.x + self.w <= width && self.y + self.h <= height
    }

    /// The cell `(x, y)` lies inside the room's rectangle.
    pub open spec fn contains(self, x: int, y: int) -> bool {
        self.x <= x < self.x + self.w && self.y <= y < self.y + self.h
    }

    /// The cell `(x, y)` lies inside the room and on its one-cell-thick
    /// border: the leftmost or rightmost column, or the top or bottom row.
    pub open spec fn on_perimeter(self, x: int, y: int) -> bool {
        self.contains(x, y) && (x == self.x || y == self.y || x == self.x + self.w - 1 || y
            == self.y + self.h - 1)
    }

    pub fn new(x: usize, y: usize, w: usize, h: usize) -> (r: Self)
        ensures
            r == (Room { x, y, w, h }),
    {
        Room { x, y, w, h }
    }
}

} // verus!
