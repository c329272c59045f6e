//! The catalogue of the seven pieces: cell layout, colour and bounding-box size.

use vstd::prelude::*;
use crate::geometry::MatrixPosition;

verus! {

/// Column of the spawn anchor.
pub const START_X: i32 = 4;

/// Row of the spawn anchor: the first visible row. A piece appears with the
/// bottom of its bounding box just above it.
pub const START_Y: i32 = 4;

/// The seven pieces.
#[derive(Clone, Copy, Debug, PartialEq, Eq, Structural)]
pub enum TetrominoType {
    I,
    O,
    T,
    S,
    Z,
    L,
    J,
}

/// A colour, each channel in hundredths of full intensity.
#[derive(Clone, Copy, Debug, PartialEq, Eq, Structural)]
pub struct Color {
    pub red: u8,
    pub green: u8,
    pub blue: u8,
}

/// The position `(x, y)` as a value.
pub open spec fn at(x: int, y: int) -> MatrixPosition {
    MatrixPosition { x: x as i32, y: y as i32 }
}

impl TetrominoType {
    /// The number of the piece, from 0 for `I` to 6 for `J`.
    pub open spec fn index(self) -> int {
        match self {
            TetrominoType::I => 0,
            TetrominoType::O => 1,
            TetrominoType::T => 2,
            TetrominoType::S => 3,
            TetrominoType::Z => 4,
            TetrominoType::L => 5,
            TetrominoType::J => 6,
        }
    }

    /// The piece that a draw `n` selects: 0 to 5 select `I` to `L`, every
    /// other number selects `J`.
    pub open spec fn of_index(n: int) -> TetrominoType {
        if n == 0 {
            TetrominoType::I
        } else if n == 1 {
            TetrominoType::O
        } else if n == 2 {
            TetrominoType::T
        } else if n == 3 {
            TetrominoType::S
        } else if n == 4 {
            TetrominoType::Z
        } else if n == 5 {
            TetrominoType::L
        } else {
            TetrominoType::J
        }
    }

    /// The four cells of the piece within its bounding box, flat side down.
    pub open spec fn offsets(self) -> [MatrixPosition; 4] {
        match self {
            TetrominoType::I => [at(3, 3), at(2, 3), at(1, 3), at(0, 3)],
            TetrominoType::O => [at(0, 0), at(0, 1), at(1, 0), at(1, 1)],
            TetrominoType::T => [at(0, 2), at(1, 2), at(2, 2), at(1, 1)],
            TetrominoType::S => [at(0, 2), at(1, 2), at(1, 1), at(2, 1)],
            TetrominoType::Z => [at(2, 2), at(1, 2), at(1, 1), at(0, 1)],
            TetrominoType::L => [at(2, 1), at(0, 2), at(1, 2), at(2, 2)],
            TetrominoType::J => [at(0, 2), at(1, 2), at(2, 2), at(0, 1)],
        }
    }

    /// The side of the square box in which the piece is laid out.
    pub open spec fn box_size(self) -> int {
        match self {
            TetrominoType::I => 4,
            TetrominoType::O => 2,
            _ => 3,
        }
    }

    /// The colour of the piece.
    pub open spec fn tint(self) -> Color {
        match self {
            TetrominoType::I => Color { red: 0, green: 70, blue: 70 },
            TetrominoType::O => Color { red: 70, green: 70, blue: 0 },
            TetrominoType::T => Color { red: 70, green: 0, blue: 70 },
            TetrominoType::S => Color { red: 70, green: 0, blue: 0 },
            TetrominoType::Z => Color { red: 0, green: 70, blue: 0 },
            TetrominoType::L => Color { red: 0, green: 0, blue: 70 },
            TetrominoType::J => Color { red: 90, green: 25, blue: 0 },
        }
    }

    /// The cell `i` of a new piece on the grid: the spawn anchor plus the
    /// cell's offset, the box standing on the last row of the spawn buffer.
    pub open spec fn spawn_cell(self, i: int) -> MatrixPosition {
        at(
            START_X + self.offsets()[i].x,
            START_Y - self.box_size() + self.offsets()[i].y,
        )
    }

    /// Selects the piece for a number drawn from 0 to 6.
    pub fn from_index(n: u32) -> (shape: TetrominoType)
        ensures
            shape == TetrominoType::of_index(n as int),
            n < 7 ==> shape.index() == n,
    {
        match n {
            0 => TetrominoType::I,
            1 => TetrominoType::O,
            2 => TetrominoType::T,
            3 => TetrominoType::S,
            4 => TetrominoType::Z,
            5 => TetrominoType::L,
            _ => TetrominoType::J,
        }
    }

    /// The side of the square box in which the piece is laid out.
    pub fn size(self) -> (side: i32)
        ensures
            side == self.box_size(),
    {
        match self {
            TetrominoType::I => 4,
            TetrominoType::O => 2,
            _ => 3,
        }
    }

    /// The colour of the piece.
    pub fn color(self) -> (c: Color)
        ensures
            c == self.tint(),
    {
        match self {
            TetrominoType::I => Color { red: 0, green: 70, blue: 70 },
            TetrominoType::O => Color { red: 70, green: 70, blue: 0 },
            TetrominoType::T => Color { red: 70, green: 0, blue: 70 },
            TetrominoType::S => Color { red: 70, green: 0, blue: 0 },
            TetrominoType::Z => Color { red: 0, green: 70, blue: 0 },
            TetrominoType::L => Color { red: 0, green: 0, blue: 70 },
            TetrominoType::J => Color { red: 90, green: 25, blue: 0 },
        }
    }
}

/// The four blocks of a piece: its colour with each cell's offset within the
/// bounding box.
pub fn blocks_from_type(shape: TetrominoType) -> (blocks: [(Color, MatrixPosition); 4])
    ensures
        forall|i: int|
            0 <= i < 4 ==> #[trigger] blocks[i] == (shape.tint(), shape.offsets()[i]),
{
    let c = shape.color();
    let p = |x: i32, y: i32| -> (r: (Color, MatrixPosition))
        ensures
            r == (c, MatrixPosition { x, y }),
        { (c, MatrixPosition { x, y }) };
    match shape {
        TetrominoType::I => [p(3, 3), p(2, 3), p(1, 3), p(0, 3)],
        TetrominoType::O => [p(0, 0), p(0, 1), p(1, 0), p(1, 1)],
        TetrominoType::T => [p(0, 2), p(1, 2), p(2, 2), p(1, 1)],
        TetrominoType::S => [p(0, 2), p(1, 2), p(1, 1), p(2, 1)],
        TetrominoType::Z => [p(2, 2), p(1, 2), p(1, 1), p(0, 1)],
        TetrominoType::L => [p(2, 1), p(0, 2), p(1, 2), p(2, 2)],
        TetrominoType::J => [p(0, 2), p(1, 2), p(2, 2), p(0, 1)],
    }
}

/// The four blocks of a new piece of the given shape: its colour with each
/// cell's position on the grid.
pub fn instantiate(shape: TetrominoType) -> (blocks: [(Color, MatrixPosition); 4])
    ensures
        forall|i: int|
            0 <= i < 4 ==> #[trigger] blocks[i] == (shape.tint(), shape.spawn_cell(i)),
{
    let relative = blocks_from_type(shape);
    let side = shape.size();
    let mut blocks = relative;
    let mut i: usize = 0;
    while i < 4
        invariant
            i <= 4,
            side == shape.box_size(),
            forall|j: int|
                0 <= j < 4 ==> #[trigger] relative[j] == (shape.tint(), shape.offsets()[j]),
            forall|j: int| 0 <= j < i ==> #[trigger] blocks[j] == (shape.tint(), shape.spawn_cell(j)),
        decreases 4 - i,
    {
        let (c, offset) = relative[i];
        blocks[i] = (c, MatrixPosition { x: START_X + offset.x, y: START_Y - side + offset.y });
        i += 1;
    }
    blocks
}

} // verus!
