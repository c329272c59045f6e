//! The active piece: four cells of the grid under the player's control.

use vstd::prelude::*;
use crate::catalog::{instantiate, TetrominoType};
use crate::geometry::{MatrixPosition, GRID_CELLS};
use crate::grid::{Block, Cell};

verus! {

/// The active piece. Each of its four cells has a position of its own:
/// moving and rotating the piece recomputes every cell.
#[derive(Clone, Copy, Debug, PartialEq, Eq)]
pub struct Piece {
    pub shape: TetrominoType,
    pub cells: [MatrixPosition; 4],
}

/// The smallest rectangle of the grid that holds all cells of a piece.
#[derive(Clone, Copy, Debug, PartialEq, Eq, Structural)]
pub struct BoundingBox {
    pub min_x: i32,
    pub max_x: i32,
    pub min_y: i32,
    pub max_y: i32,
}

/// The smaller of two numbers.
pub open spec fn lesser(a: int, b: int) -> int {
    if a <= b {
        a
    } else {
        b
    }
}

/// The larger of two numbers.
pub open spec fn greater(a: int, b: int) -> int {
    if a >= b {
        a
    } else {
        b
    }
}

impl BoundingBox {
    /// The number of columns of the box.
    pub open spec fn width(self) -> int {
        1 + self.max_x - self.min_x
    }

    /// The number of rows of the box.
    pub open spec fn height(self) -> int {
        1 + self.max_y - self.min_y
    }
}

impl Piece {
    /// Whether the piece sits on the grid: every cell lies in the field, and
    /// no two cells share a position.
    pub open spec fn on_grid(self) -> bool {
        &&& self.cells[0].in_field()
        &&& self.cells[1].in_field()
        &&& self.cells[2].in_field()
        &&& self.cells[3].in_field()
        &&& self.cells[0] != self.cells[1]
        &&& self.cells[0] != self.cells[2]
        &&& self.cells[0] != self.cells[3]
        &&& self.cells[1] != self.cells[2]
        &&& self.cells[1] != self.cells[3]
        &&& self.cells[2] != self.cells[3]
    }

    /// Whether one of the cells of the piece has the linear address `a`.
    pub open spec fn covers(self, a: int) -> bool {
        ||| a == self.cells[0].addr()
        ||| a == self.cells[1].addr()
        ||| a == self.cells[2].addr()
        ||| a == self.cells[3].addr()
    }

    /// The bounding box of the piece.
    pub open spec fn bounds(self) -> BoundingBox {
        BoundingBox {
            min_x: lesser(
                lesser(self.cells[0].x as int, self.cells[1].x as int),
                lesser(self.cells[2].x as int, self.cells[3].x as int),
            ) as i32,
            max_x: greater(
                greater(self.cells[0].x as int, self.cells[1].x as int),
                greater(self.cells[2].x as int, self.cells[3].x as int),
            ) as i32,
            min_y: lesser(
                lesser(self.cells[0].y as int, self.cells[1].y as int),
                lesser(self.cells[2].y as int, self.cells[3].y as int),
            ) as i32,
            max_y: greater(
                greater(self.cells[0].y as int, self.cells[1].y as int),
                greater(self.cells[2].y as int, self.cells[3].y as int),
            ) as i32,
        }
    }

    /// The piece with every cell moved by `dx` columns and `dy` rows.
    pub open spec fn moved_by(self, dx: int, dy: int) -> Piece {
        Piece {
            shape: self.shape,
            cells: [
                MatrixPosition {
                    x: (self.cells[0].x + dx) as i32,
                    y: (self.cells[0].y + dy) as i32,
                },
                MatrixPosition {
                    x: (self.cells[1].x + dx) as i32,
                    y: (self.cells[1].y + dy) as i32,
                },
                MatrixPosition {
                    x: (self.cells[2].x + dx) as i32,
                    y: (self.cells[2].y + dy) as i32,
                },
                MatrixPosition {
                    x: (self.cells[3].x + dx) as i32,
                    y: (self.cells[3].y + dy) as i32,
                },
            ],
        }
    }

    /// A new piece of the given shape, where it appears in the spawn buffer.
    pub open spec fn spawned(shape: TetrominoType) -> Piece {
        Piece {
            shape,
            cells: [
                shape.spawn_cell(0),
                shape.spawn_cell(1),
                shape.spawn_cell(2),
                shape.spawn_cell(3),
            ],
        }
    }

    /// Whether the piece sits on the grid.
    pub fn is_on_grid(&self) -> (ok: bool)
        ensures
            ok == self.on_grid(),
    {
        let c = &self.cells;
        c[0].is_in_field() && c[1].is_in_field() && c[2].is_in_field() && c[3].is_in_field()
            && !c[0].same_as(&c[1]) && !c[0].same_as(&c[2]) && !c[0].same_as(&c[3])
            && !c[1].same_as(&c[2]) && !c[1].same_as(&c[3]) && !c[2].same_as(&c[3])
    }

    /// Whether `pos` is one of the cells of the piece.
    pub fn stands_on(&self, pos: MatrixPosition) -> (r: bool)
        ensures
            r == (pos == self.cells[0] || pos == self.cells[1] || pos == self.cells[2] || pos
                == self.cells[3]),
            self.on_grid() && pos.in_field() ==> r == self.covers(pos.addr()),
    {
        self.cells[0].same_as(&pos) || self.cells[1].same_as(&pos) || self.cells[2].same_as(&pos)
            || self.cells[3].same_as(&pos)
    }

    /// A new piece of the given shape, where it appears in the spawn buffer.
    pub fn spawn(shape: TetrominoType) -> (piece: Piece)
        ensures
            piece == Piece::spawned(shape),
            piece.on_grid(),
    {
        let blocks = instantiate(shape);
        let piece = Piece { shape, cells: [blocks[0].1, blocks[1].1, blocks[2].1, blocks[3].1] };
        assert(piece.cells@ =~= Piece::spawned(shape).cells@);
        assert(piece.cells == Piece::spawned(shape).cells);
        piece
    }

    /// The bounding box of the piece.
    pub fn bounding_box(&self) -> (b: BoundingBox)
        ensures
            b == self.bounds(),
    {
        let c = &self.cells;
        BoundingBox {
            min_x: smaller(smaller(c[0].x, c[1].x), smaller(c[2].x, c[3].x)),
            max_x: larger(larger(c[0].x, c[1].x), larger(c[2].x, c[3].x)),
            min_y: smaller(smaller(c[0].y, c[1].y), smaller(c[2].y, c[3].y)),
            max_y: larger(larger(c[0].y, c[1].y), larger(c[2].y, c[3].y)),
        }
    }
}

/// The smaller of two numbers.
fn smaller(a: i32, b: i32) -> (m: i32)
    ensures
        m == lesser(a as int, b as int),
{
    if a <= b {
        a
    } else {
        b
    }
}

/// The larger of two numbers.
fn larger(a: i32, b: i32) -> (m: i32)
    ensures
        m == greater(a as int, b as int),
{
    if a >= b {
        a
    } else {
        b
    }
}

/// The grid with the four cells of `piece` emptied.
pub open spec fn erased(cells: Seq<Cell>, piece: Piece) -> Seq<Cell> {
    cells.update(piece.cells[0].addr(), Cell::Empty).update(
        piece.cells[1].addr(),
        Cell::Empty,
    ).update(piece.cells[2].addr(), Cell::Empty).update(piece.cells[3].addr(), Cell::Empty)
}

/// The grid with the four cells of `piece` marked as blocks of the active
/// piece, flagged as moved or not.
pub open spec fn placed(cells: Seq<Cell>, piece: Piece, moved: bool) -> Seq<Cell> {
    let block = Cell::Current(Block { shape: piece.shape, moved });
    cells.update(piece.cells[0].addr(), block).update(piece.cells[1].addr(), block).update(
        piece.cells[2].addr(),
        block,
    ).update(piece.cells[3].addr(), block)
}

/// The grid with what stands in the four cells of `piece` settled on the heap.
pub open spec fn locked(cells: Seq<Cell>, piece: Piece) -> Seq<Cell> {
    let c0 = cells.update(piece.cells[0].addr(), cells[piece.cells[0].addr()].settled());
    let c1 = c0.update(piece.cells[1].addr(), c0[piece.cells[1].addr()].settled());
    let c2 = c1.update(piece.cells[2].addr(), c1[piece.cells[2].addr()].settled());
    c2.update(piece.cells[3].addr(), c2[piece.cells[3].addr()].settled())
}

/// Moving a piece keeps the grid in agreement with it. Where exactly the cells
/// of `from` are marked as the active piece's, emptying them and marking the
/// cells of `to` leaves exactly the cells of `to` marked, with the shape of
/// `to`, and changes no cell that neither piece covers.
pub proof fn lemma_replaced(cells: Seq<Cell>, from: Piece, to: Piece, moved: bool)
    requires
        cells.len() == GRID_CELLS,
        from.on_grid(),
        to.on_grid(),
        forall|a: int| 0 <= a < cells.len() ==> (#[trigger] cells[a] is Current <==> from.covers(a)),
    ensures
        placed(erased(cells, from), to, moved).len() == GRID_CELLS,
        forall|a: int|
            0 <= a < GRID_CELLS ==> #[trigger] placed(erased(cells, from), to, moved)[a] == if to.covers(
                a,
            ) {
                Cell::Current(Block { shape: to.shape, moved })
            } else if from.covers(a) {
                Cell::Empty
            } else {
                cells[a]
            },
{
}

} // verus!
