//! Field geometry: the size of the playing field and the addressing of its cells.

use vstd::prelude::*;
use crate::fault::Fault;

verus! {

/// Number of columns of the field.
pub const FIELD_WIDTH: i32 = 10;

/// Number of visible rows of the field.
pub const FIELD_HEIGHT: i32 = 20;

/// Number of rows above the visible field, in which new pieces appear.
pub const SPAWN_BUFFER_HEIGHT: i32 = 4;

/// Number of rows of the whole grid: the spawn buffer and the visible field.
pub const FULL_HEIGHT: i32 = 24;

/// Index of the last row.
pub const MAX_Y: i32 = 23;

/// Number of cells of the grid.
pub const GRID_CELLS: usize = 240;

/// A position on the grid. Column 0 is the left wall, row 0 the top of the
/// spawn buffer; rows grow downward.
#[derive(Clone, Copy, Debug, PartialEq, Eq, Structural)]
pub struct MatrixPosition {
    pub x: i32,
    pub y: i32,
}

/// Whether column `x`, row `y` lies on the grid.
pub open spec fn in_bounds(x: int, y: int) -> bool {
    0 <= x < FIELD_WIDTH && 0 <= y < FULL_HEIGHT
}

/// The linear address of column `x`, row `y`.
pub open spec fn address(x: int, y: int) -> int {
    y * FIELD_WIDTH + x
}

impl MatrixPosition {
    /// Whether the position lies on the grid.
    pub open spec fn in_field(self) -> bool {
        in_bounds(self.x as int, self.y as int)
    }

    /// The linear address of the position.
    pub open spec fn addr(self) -> int {
        address(self.x as int, self.y as int)
    }

    /// Tests whether the position lies on the grid.
    pub fn is_in_field(&self) -> (r: bool)
        ensures
            r == self.in_field(),
    {
        0 <= self.x && self.x < FIELD_WIDTH && 0 <= self.y && self.y < FULL_HEIGHT
    }

    /// Whether two positions are the same.
    pub fn same_as(&self, other: &MatrixPosition) -> (r: bool)
        ensures
            r == (*self == *other),
    {
        self.x == other.x && self.y == other.y
    }

    /// The linear address of the position: its row times the width of the
    /// field, plus its column. A position outside the grid has none, and is
    /// a fault.
    pub fn linear_address(&self) -> (r: Result<usize, Fault>)
        ensures
            self.in_field() ==> r == Ok::<usize, Fault>(self.addr() as usize) && self.addr()
                < GRID_CELLS,
            !self.in_field() ==> r == Err::<usize, Fault>(Fault::OutOfRange),
    {
        if self.is_in_field() {
            Ok((self.y * FIELD_WIDTH + self.x) as usize)
        } else {
            Err(Fault::OutOfRange)
        }
    }
}

} // verus!
