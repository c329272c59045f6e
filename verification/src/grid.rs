//! The occupancy grid: which cell of the field holds what.

use vstd::prelude::*;
use crate::catalog::TetrominoType;
use crate::fault::Fault;
use crate::geometry::{address, MatrixPosition, FIELD_WIDTH, FULL_HEIGHT, GRID_CELLS};

verus! {

/// What a live cell carries: the shape it came from, which gives its colour,
/// and whether it has changed position since the moves were last acknowledged.
#[derive(Clone, Copy, Debug, PartialEq, Eq, Structural)]
pub struct Block {
    pub shape: TetrominoType,
    pub moved: bool,
}

/// The state of one cell of the grid.
#[derive(Clone, Copy, Debug, PartialEq, Eq, Structural)]
pub enum Cell {
    /// Nothing is here.
    Empty,
    /// A block of the active, falling piece.
    Current(Block),
    /// A block settled on the heap.
    Locked(Block),
}

impl Cell {
    /// The cell as it arrives one row further down: a live cell is flagged as
    /// moved, an empty one stays empty.
    pub open spec fn shifted(self) -> Cell {
        match self {
            Cell::Empty => Cell::Empty,
            Cell::Current(b) => Cell::Current(Block { shape: b.shape, moved: true }),
            Cell::Locked(b) => Cell::Locked(Block { shape: b.shape, moved: true }),
        }
    }

    /// The cell with its move acknowledged.
    pub open spec fn acknowledged(self) -> Cell {
        match self {
            Cell::Empty => Cell::Empty,
            Cell::Current(b) => Cell::Current(Block { shape: b.shape, moved: false }),
            Cell::Locked(b) => Cell::Locked(Block { shape: b.shape, moved: false }),
        }
    }

    /// The cell settled on the heap: a block of the active piece becomes a
    /// locked one, anything else stays as it is.
    pub open spec fn settled(self) -> Cell {
        match self {
            Cell::Current(b) => Cell::Locked(b),
            c => c,
        }
    }

    /// Whether a block of the heap is here.
    pub fn is_locked(&self) -> (r: bool)
        ensures
            r == (*self is Locked),
    {
        match self {
            Cell::Locked(_) => true,
            _ => false,
        }
    }

    /// Whether a block of the active piece is here.
    pub fn is_current(&self) -> (r: bool)
        ensures
            r == (*self is Current),
    {
        match self {
            Cell::Current(_) => true,
            _ => false,
        }
    }

    /// Whether nothing is here.
    pub fn is_empty(&self) -> (r: bool)
        ensures
            r == (*self is Empty),
    {
        match self {
            Cell::Empty => true,
            _ => false,
        }
    }

    /// The state as a number: 0 for an empty cell, 1 for a block of the
    /// active piece, 2 for a block of the heap.
    pub open spec fn code_of(self) -> u8 {
        match self {
            Cell::Empty => 0,
            Cell::Current(_) => 1,
            Cell::Locked(_) => 2,
        }
    }

    /// The state as a number: 0 for an empty cell, 1 for a block of the
    /// active piece, 2 for a block of the heap.
    pub fn code(&self) -> (n: u8)
        ensures
            n == self.code_of(),
    {
        match self {
            Cell::Empty => 0,
            Cell::Current(_) => 1,
            Cell::Locked(_) => 2,
        }
    }

    /// The block in this cell, if there is one.
    pub fn block(&self) -> (r: Option<Block>)
        ensures
            r == match *self {
                Cell::Empty => None::<Block>,
                Cell::Current(b) => Some(b),
                Cell::Locked(b) => Some(b),
            },
    {
        match self {
            Cell::Empty => None,
            Cell::Current(b) => Some(*b),
            Cell::Locked(b) => Some(*b),
        }
    }
}

/// Whether `y` is a row of the grid.
pub open spec fn is_row(y: int) -> bool {
    0 <= y < FULL_HEIGHT
}

/// What column `x`, row `y` of the grid `cells` holds.
pub open spec fn cell_at(cells: Seq<Cell>, x: int, y: int) -> Cell {
    cells[address(x, y)]
}

/// Whether every cell of row `y` holds a block of the heap.
pub open spec fn row_full(cells: Seq<Cell>, y: int) -> bool {
    forall|x: int| 0 <= x < FIELD_WIDTH ==> #[trigger] cell_at(cells, x, y) is Locked
}

/// Whether every cell of row `y` is empty.
pub open spec fn row_empty(cells: Seq<Cell>, y: int) -> bool {
    forall|x: int| 0 <= x < FIELD_WIDTH ==> #[trigger] cell_at(cells, x, y) is Empty
}

/// The grid after row `y - 1` was copied into row `y`, its live cells flagged
/// as moved.
pub open spec fn with_row_shifted(cells: Seq<Cell>, y: int) -> Seq<Cell> {
    Seq::new(
        cells.len(),
        |a: int|
            if y * FIELD_WIDTH <= a < (y + 1) * FIELD_WIDTH {
                cells[a - FIELD_WIDTH].shifted()
            } else {
                cells[a]
            },
    )
}

/// The grid after row `y` was emptied.
pub open spec fn with_row_cleared(cells: Seq<Cell>, y: int) -> Seq<Cell> {
    Seq::new(
        cells.len(),
        |a: int|
            if y * FIELD_WIDTH <= a < (y + 1) * FIELD_WIDTH {
                Cell::Empty
            } else {
                cells[a]
            },
    )
}

/// The grid with every move acknowledged.
pub open spec fn all_acknowledged(cells: Seq<Cell>) -> Seq<Cell> {
    Seq::new(cells.len(), |a: int| cells[a].acknowledged())
}

/// The empty grid.
pub open spec fn empty_grid() -> Seq<Cell> {
    Seq::new(GRID_CELLS as nat, |a: int| Cell::Empty)
}

/// The occupancy grid, one cell for each position of the field, stored row by
/// row from the top of the spawn buffer.
pub struct Grid {
    cells: Vec<Cell>,
}

impl View for Grid {
    type V = Seq<Cell>;

    closed spec fn view(&self) -> Seq<Cell> {
        self.cells@
    }
}

impl Grid {
    /// A grid has one cell for each position of the field.
    pub open spec fn wf(&self) -> bool {
        self@.len() == GRID_CELLS
    }

    /// The grid with every cell empty.
    pub fn new() -> (grid: Grid)
        ensures
            grid.wf(),
            grid@ == empty_grid(),
    {
        let mut cells: Vec<Cell> = Vec::new();
        let mut a: usize = 0;
        while a < GRID_CELLS
            invariant
                a <= GRID_CELLS,
                cells@.len() == a,
                forall|i: int| 0 <= i < a ==> cells@[i] == Cell::Empty,
            decreases GRID_CELLS - a,
        {
            cells.push(Cell::Empty);
            a += 1;
        }
        assert(cells@ =~= empty_grid());
        Grid { cells }
    }

    /// Whether the grid has one cell for each position of the field.
    pub fn is_whole(&self) -> (ok: bool)
        ensures
            ok == self.wf(),
    {
        self.cells.len() == GRID_CELLS
    }

    /// What the cell at `pos` holds. A position outside the grid is a fault.
    pub fn read(&self, pos: MatrixPosition) -> (r: Result<Cell, Fault>)
        requires
            self.wf(),
        ensures
            pos.in_field() ==> r == Ok::<Cell, Fault>(self@[pos.addr()]),
            !pos.in_field() ==> r == Err::<Cell, Fault>(Fault::OutOfRange),
    {
        match pos.linear_address() {
            Ok(a) => Ok(self.cells[a]),
            Err(fault) => Err(fault),
        }
    }

    /// Sets the cell at `pos` to `cell`. A position outside the grid is a
    /// fault, and leaves the grid as it is.
    pub fn mark(&mut self, pos: MatrixPosition, cell: Cell) -> (r: Result<(), Fault>)
        requires
            old(self).wf(),
        ensures
            final(self).wf(),
            pos.in_field() ==> r == Ok::<(), Fault>(()) && final(self)@ == old(self)@.update(
                pos.addr(),
                cell,
            ),
            !pos.in_field() ==> r == Err::<(), Fault>(Fault::OutOfRange) && final(self)@ == old(
                self,
            )@,
    {
        match pos.linear_address() {
            Ok(a) => {
                self.cells[a] = cell;
                Ok(())
            },
            Err(fault) => Err(fault),
        }
    }

    /// Whether every cell of row `y` holds a block of the heap. A row outside
    /// the grid is a fault.
    pub fn is_full_row(&self, y: i32) -> (r: Result<bool, Fault>)
        requires
            self.wf(),
        ensures
            is_row(y as int) ==> r == Ok::<bool, Fault>(row_full(self@, y as int)),
            !is_row(y as int) ==> r == Err::<bool, Fault>(Fault::OutOfRange),
    {
        if y < 0 || y >= FULL_HEIGHT {
            return Err(Fault::OutOfRange);
        }
        let mut x: i32 = 0;
        while x < FIELD_WIDTH
            invariant
                self.wf(),
                is_row(y as int),
                0 <= x <= FIELD_WIDTH,
                forall|i: int| 0 <= i < x ==> #[trigger] cell_at(self@, i, y as int) is Locked,
            decreases FIELD_WIDTH - x,
        {
            let a = (y * FIELD_WIDTH + x) as usize;
            if !self.cells[a].is_locked() {
                assert(!(cell_at(self@, x as int, y as int) is Locked));
                return Ok(false);
            }
            x += 1;
        }
        Ok(true)
    }

    /// The states of row `y` as numbers, from the left wall to the right. A
    /// row outside the grid is a fault.
    pub fn row_codes(&self, y: i32) -> (r: Result<Vec<u8>, Fault>)
        requires
            self.wf(),
        ensures
            is_row(y as int) ==> (r matches Ok(codes) && codes@ == Seq::new(
                FIELD_WIDTH as nat,
                |x: int| cell_at(self@, x, y as int).code_of(),
            )),
            !is_row(y as int) ==> r == Err::<Vec<u8>, Fault>(Fault::OutOfRange),
    {
        if y < 0 || y >= FULL_HEIGHT {
            return Err(Fault::OutOfRange);
        }
        let mut codes: Vec<u8> = Vec::new();
        let mut x: i32 = 0;
        while x < FIELD_WIDTH
            invariant
                self.wf(),
                is_row(y as int),
                0 <= x <= FIELD_WIDTH,
                codes@.len() == x,
                forall|i: int| 0 <= i < x ==> codes@[i] == cell_at(self@, i, y as int).code_of(),
            decreases FIELD_WIDTH - x,
        {
            let a = (y * FIELD_WIDTH + x) as usize;
            codes.push(self.cells[a].code());
            x += 1;
        }
        assert(codes@ =~= Seq::new(
            FIELD_WIDTH as nat,
            |x: int| cell_at(self@, x, y as int).code_of(),
        ));
        Ok(codes)
    }

    /// Copies row `y - 1` into row `y`, flagging the live cells that arrive as
    /// moved. Row 0 has no row above it: it, and a row outside the grid, is a
    /// fault, and leaves the grid as it is.
    pub fn shift_row_down(&mut self, y: i32) -> (r: Result<(), Fault>)
        requires
            old(self).wf(),
        ensures
            final(self).wf(),
            1 <= y < FULL_HEIGHT ==> r == Ok::<(), Fault>(()) && final(self)@
                == with_row_shifted(old(self)@, y as int),
            !(1 <= y < FULL_HEIGHT) ==> r == Err::<(), Fault>(Fault::OutOfRange) && final(self)@
                == old(self)@,
    {
        if y < 1 || y >= FULL_HEIGHT {
            return Err(Fault::OutOfRange);
        }
        let mut x: i32 = 0;
        while x < FIELD_WIDTH
            invariant
                self.wf(),
                old(self).wf(),
                1 <= y < FULL_HEIGHT,
                0 <= x <= FIELD_WIDTH,
                forall|a: int|
                    0 <= a < GRID_CELLS ==> #[trigger] self@[a] == if y * FIELD_WIDTH <= a < y
                        * FIELD_WIDTH + x {
                        old(self)@[a - FIELD_WIDTH].shifted()
                    } else {
                        old(self)@[a]
                    },
            decreases FIELD_WIDTH - x,
        {
            let to = (y * FIELD_WIDTH + x) as usize;
            let from = ((y - 1) * FIELD_WIDTH + x) as usize;
            let arriving = match self.cells[from] {
                Cell::Empty => Cell::Empty,
                Cell::Current(b) => Cell::Current(Block { shape: b.shape, moved: true }),
                Cell::Locked(b) => Cell::Locked(Block { shape: b.shape, moved: true }),
            };
            self.cells[to] = arriving;
            x += 1;
        }
        assert(self@ =~= with_row_shifted(old(self)@, y as int));
        Ok(())
    }

    /// Empties row `y`. A row outside the grid is a fault, and leaves the grid
    /// as it is.
    pub fn clear_row(&mut self, y: i32) -> (r: Result<(), Fault>)
        requires
            old(self).wf(),
        ensures
            final(self).wf(),
            is_row(y as int) ==> r == Ok::<(), Fault>(()) && final(self)@ == with_row_cleared(
                old(self)@,
                y as int,
            ),
            !is_row(y as int) ==> r == Err::<(), Fault>(Fault::OutOfRange) && final(self)@ == old(
                self,
            )@,
    {
        if y < 0 || y >= FULL_HEIGHT {
            return Err(Fault::OutOfRange);
        }
        let mut x: i32 = 0;
        while x < FIELD_WIDTH
            invariant
                self.wf(),
                old(self).wf(),
                is_row(y as int),
                0 <= x <= FIELD_WIDTH,
                forall|a: int|
                    0 <= a < GRID_CELLS ==> #[trigger] self@[a] == if y * FIELD_WIDTH <= a < y
                        * FIELD_WIDTH + x {
                        Cell::Empty
                    } else {
                        old(self)@[a]
                    },
            decreases FIELD_WIDTH - x,
        {
            let a = (y * FIELD_WIDTH + x) as usize;
            self.cells[a] = Cell::Empty;
            x += 1;
        }
        assert(self@ =~= with_row_cleared(old(self)@, y as int));
        Ok(())
    }

    /// Empties every cell.
    pub fn clear(&mut self)
        requires
            old(self).wf(),
        ensures
            final(self).wf(),
            final(self)@ == empty_grid(),
    {
        let mut a: usize = 0;
        while a < GRID_CELLS
            invariant
                self.wf(),
                a <= GRID_CELLS,
                forall|i: int| 0 <= i < a ==> self@[i] == Cell::Empty,
            decreases GRID_CELLS - a,
        {
            self.cells[a] = Cell::Empty;
            a += 1;
        }
        assert(self@ =~= empty_grid());
    }

    /// Acknowledges every move: no cell is flagged as moved afterwards.
    pub fn acknowledge_moves(&mut self)
        requires
            old(self).wf(),
        ensures
            final(self).wf(),
            final(self)@ == all_acknowledged(old(self)@),
    {
        let mut a: usize = 0;
        while a < GRID_CELLS
            invariant
                self.wf(),
                old(self).wf(),
                a <= GRID_CELLS,
                forall|i: int| 0 <= i < a ==> self@[i] == old(self)@[i].acknowledged(),
                forall|i: int| a <= i < GRID_CELLS ==> self@[i] == old(self)@[i],
            decreases GRID_CELLS - a,
        {
            let settled = match self.cells[a] {
                Cell::Empty => Cell::Empty,
                Cell::Current(b) => Cell::Current(Block { shape: b.shape, moved: false }),
                Cell::Locked(b) => Cell::Locked(Block { shape: b.shape, moved: false }),
            };
            self.cells[a] = settled;
            a += 1;
        }
        assert(self@ =~= all_acknowledged(old(self)@));
    }
}

} // verus!
