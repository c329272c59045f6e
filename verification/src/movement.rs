//! Movement: whether the active piece may shift sideways or down, and what
//! becomes of it when it may not go down.

use vstd::prelude::*;
use crate::game::{heap_in_buffer, Game, GameView};
use crate::geometry::{MatrixPosition, FIELD_WIDTH, GRID_CELLS, MAX_Y, SPAWN_BUFFER_HEIGHT};
use crate::grid::{cell_at, Cell};
use crate::piece::{erased, lemma_replaced, locked, placed, Piece};
use crate::session::{capped, Session};

verus! {

/// A sideways move that is asked for.
#[derive(Clone, Copy, Debug, PartialEq, Eq, Structural)]
pub enum Sideways {
    Left,
    Stay,
    Right,
}

impl Sideways {
    /// The number of columns to shift by: -1 to the left, 1 to the right.
    pub open spec fn dx(self) -> int {
        match self {
            Sideways::Left => -1,
            Sideways::Stay => 0,
            Sideways::Right => 1,
        }
    }

    /// The number of columns to shift by: -1 to the left, 1 to the right.
    pub fn columns(self) -> (d: i32)
        ensures
            d == self.dx(),
    {
        match self {
            Sideways::Left => -1,
            Sideways::Stay => 0,
            Sideways::Right => 1,
        }
    }
}

/// The number of rows that a move down, asked for or not, shifts by.
pub open spec fn dy(down: bool) -> int {
    if down {
        1
    } else {
        0
    }
}

/// What a move did.
#[derive(Clone, Copy, Debug, PartialEq, Eq, Structural)]
pub struct Motion {
    /// The columns that the piece shifted by.
    pub dx: i32,
    /// The rows that the piece shifted by.
    pub dy: i32,
    /// Whether the piece was settled on the heap.
    pub locked: bool,
}

impl Piece {
    /// Whether a cell of the piece stands in the spawn buffer.
    pub open spec fn in_buffer(self) -> bool {
        ||| self.cells[0].y < SPAWN_BUFFER_HEIGHT
        ||| self.cells[1].y < SPAWN_BUFFER_HEIGHT
        ||| self.cells[2].y < SPAWN_BUFFER_HEIGHT
        ||| self.cells[3].y < SPAWN_BUFFER_HEIGHT
    }
}

impl Session {
    /// The session after the active piece was settled on the heap. A hard
    /// drop in progress adds its steps but one to the score. With a cell of
    /// the piece in the spawn buffer the game is lost, and runs no more;
    /// otherwise the next piece is awaited.
    pub open spec fn after_lock(self, in_buffer: bool) -> Session {
        Session {
            score: if self.forced_fall {
                capped(self.score + self.drop_rows - 1)
            } else {
                self.score
            },
            game_over: in_buffer,
            active: self.active && !in_buffer,
            awaiting_spawn: !in_buffer,
            ..self
        }
    }
}

impl GameView {
    /// Whether the cell `c` may shift by `dx` columns: it stays between the
    /// walls, and where it moves at all, not onto the heap.
    pub open spec fn cell_can_shift_x(self, c: MatrixPosition, dx: int) -> bool {
        0 <= c.x + dx < FIELD_WIDTH && (dx != 0 ==> !(cell_at(self.cells, c.x + dx, c.y as int)
            is Locked))
    }

    /// Whether the cell `c` may shift by `dy` rows: it stays above the floor,
    /// and where it moves at all, not onto the heap.
    pub open spec fn cell_can_shift_y(self, c: MatrixPosition, dy: int) -> bool {
        c.y + dy <= MAX_Y && (dy != 0 ==> !(cell_at(self.cells, c.x as int, c.y + dy)
            is Locked))
    }

    /// Whether every cell of the active piece may shift by `dx` columns.
    pub open spec fn can_shift_x(self, dx: int) -> bool {
        self.piece matches Some(p) && self.cell_can_shift_x(p.cells[0], dx)
            && self.cell_can_shift_x(p.cells[1], dx) && self.cell_can_shift_x(p.cells[2], dx)
            && self.cell_can_shift_x(p.cells[3], dx)
    }

    /// Whether every cell of the active piece may shift by `dy` rows.
    pub open spec fn can_shift_y(self, dy: int) -> bool {
        self.piece matches Some(p) && self.cell_can_shift_y(p.cells[0], dy)
            && self.cell_can_shift_y(p.cells[1], dy) && self.cell_can_shift_y(p.cells[2], dy)
            && self.cell_can_shift_y(p.cells[3], dy)
    }

    /// The columns that the active piece shifts by when `side` is asked for:
    /// all of its cells or none.
    pub open spec fn shift_x(self, side: Sideways) -> int {
        if self.can_shift_x(side.dx()) {
            side.dx()
        } else {
            0
        }
    }

    /// The rows that the active piece shifts by when a move down is asked for
    /// or not: all of its cells or none.
    pub open spec fn shift_y(self, down: bool) -> int {
        if self.can_shift_y(dy(down)) {
            dy(down)
        } else {
            0
        }
    }

    /// The game after the active piece shifted as far as it may, each axis by
    /// itself: its cells are emptied, and the cells it shifts to are marked as
    /// the active piece's and flagged as moved. Where it shifts on neither
    /// axis, and where there is no piece, nothing changes.
    pub open spec fn shifted(self, side: Sideways, down: bool) -> GameView {
        match self.piece {
            Some(p) if self.shift_x(side) != 0 || self.shift_y(down) != 0 => {
                let to = p.moved_by(self.shift_x(side), self.shift_y(down));
                GameView { cells: placed(erased(self.cells, p), to, true), piece: Some(to), ..self }
            },
            _ => self,
        }
    }

    /// Whether a move down is asked for and the active piece cannot make it.
    pub open spec fn lands(self, down: bool) -> bool {
        self.piece is Some && down && !self.can_shift_y(1)
    }

    /// The game after the active piece was settled on the heap: its cells
    /// hold blocks of the heap, there is no active piece, and the session is
    /// as `Session::after_lock` says. With no piece nothing changes.
    pub open spec fn settled(self) -> GameView {
        match self.piece {
            Some(p) => GameView {
                cells: locked(self.cells, p),
                piece: None,
                session: self.session.after_lock(p.in_buffer()),
                ..self
            },
            None => self,
        }
    }

    /// The game after a move was asked for: the piece shifts as far as it
    /// may, and where it was to go down and could not, it is then settled on
    /// the heap where it stands.
    pub open spec fn translated(self, side: Sideways, down: bool) -> GameView {
        if self.lands(down) {
            self.shifted(side, down).settled()
        } else {
            self.shifted(side, down)
        }
    }

    /// What a move that was asked for does.
    pub open spec fn motion(self, side: Sideways, down: bool) -> Motion {
        match self.piece {
            Some(_) => Motion {
                dx: self.shift_x(side) as i32,
                dy: self.shift_y(down) as i32,
                locked: self.lands(down),
            },
            None => Motion { dx: 0, dy: 0, locked: false },
        }
    }
}

/// Settling a piece keeps the grid free of cells marked as the active
/// piece's. Where exactly the cells of `p` are marked so, settling them leaves
/// no cell marked, turns each cell of `p` into a block of the heap, and
/// changes no other cell.
pub proof fn lemma_locked(cells: Seq<Cell>, p: Piece)
    requires
        cells.len() == GRID_CELLS,
        p.on_grid(),
        forall|a: int| 0 <= a < cells.len() ==> (#[trigger] cells[a] is Current <==> p.covers(a)),
    ensures
        locked(cells, p).len() == GRID_CELLS,
        forall|a: int|
            0 <= a < GRID_CELLS ==> #[trigger] locked(cells, p)[a] == if p.covers(a) {
                cells[a].settled()
            } else {
                cells[a]
            },
        forall|a: int| 0 <= a < GRID_CELLS ==> !(#[trigger] locked(cells, p)[a] is Current),
{
}

/// A piece that shifts within the field stays on the grid.
pub proof fn lemma_moved_on_grid(p: Piece, dx: int, dy: int)
    requires
        p.on_grid(),
        -1 <= dx <= 1,
        0 <= dy <= 1,
        0 <= p.cells[0].x + dx < FIELD_WIDTH && p.cells[0].y + dy <= MAX_Y,
        0 <= p.cells[1].x + dx < FIELD_WIDTH && p.cells[1].y + dy <= MAX_Y,
        0 <= p.cells[2].x + dx < FIELD_WIDTH && p.cells[2].y + dy <= MAX_Y,
        0 <= p.cells[3].x + dx < FIELD_WIDTH && p.cells[3].y + dy <= MAX_Y,
    ensures
        p.moved_by(dx, dy).on_grid(),
{
}

/// Settling the active piece on the heap keeps the game well formed.
pub proof fn lemma_settled_well_formed(game: GameView)
    requires
        game.wf(),
    ensures
        game.settled().wf(),
{
    match game.piece {
        Some(p) => {
            lemma_locked(game.cells, p);
            let after = locked(game.cells, p);
            if p.in_buffer() {
                let c = if p.cells[0].y < SPAWN_BUFFER_HEIGHT {
                    p.cells[0]
                } else if p.cells[1].y < SPAWN_BUFFER_HEIGHT {
                    p.cells[1]
                } else if p.cells[2].y < SPAWN_BUFFER_HEIGHT {
                    p.cells[2]
                } else {
                    p.cells[3]
                };
                assert(game.cells[c.addr()] is Current);
                assert(after[c.addr()] is Locked);
                assert(heap_in_buffer(after));
            } else {
                assert forall|a: int| 0 <= a < SPAWN_BUFFER_HEIGHT * FIELD_WIDTH implies !(
                #[trigger] after[a] is Locked) by {
                    assert(!(game.cells[a] is Locked));
                }
            }
        },
        None => {},
    }
}

/// A move keeps the game well formed: whatever move is asked for, and
/// whether the piece shifts, stays or is settled on the heap.
pub proof fn lemma_move_keeps_well_formed(game: GameView, side: Sideways, down: bool)
    requires
        game.wf(),
    ensures
        game.shifted(side, down).wf(),
        game.translated(side, down).wf(),
{
    match game.piece {
        Some(p) => {
            let dx = game.shift_x(side);
            let dy = game.shift_y(down);
            if dx != 0 || dy != 0 {
                lemma_moved_on_grid(p, dx, dy);
                lemma_replaced(game.cells, p, p.moved_by(dx, dy), true);
            }
            let after = game.shifted(side, down);
            assert(after.wf());
            if game.lands(down) {
                lemma_settled_well_formed(after);
            }
        },
        None => {},
    }
}

impl Game {
    /// Whether the cell `c` of the field may shift by `dx` columns.
    fn cell_may_shift_x(&self, c: MatrixPosition, dx: i32) -> (may: bool)
        requires
            self.wf(),
            c.in_field(),
            -1 <= dx <= 1,
        ensures
            may == self@.cell_can_shift_x(c, dx as int),
    {
        let x = c.x + dx;
        if x < 0 || x >= FIELD_WIDTH {
            return false;
        }
        if dx == 0 {
            return true;
        }
        match self.grid.read(MatrixPosition { x, y: c.y }) {
            Ok(Cell::Locked(_)) => false,
            _ => true,
        }
    }

    /// Whether the cell `c` of the field may shift by `dy` rows.
    fn cell_may_shift_y(&self, c: MatrixPosition, dy: i32) -> (may: bool)
        requires
            self.wf(),
            c.in_field(),
            0 <= dy <= 1,
        ensures
            may == self@.cell_can_shift_y(c, dy as int),
    {
        let y = c.y + dy;
        if y > MAX_Y {
            return false;
        }
        if dy == 0 {
            return true;
        }
        match self.grid.read(MatrixPosition { x: c.x, y }) {
            Ok(Cell::Locked(_)) => false,
            _ => true,
        }
    }

    /// Settles the active piece on the heap where it stands.
    fn lock(&mut self)
        requires
            old(self).wf(),
            old(self)@.piece is Some,
        ensures
            final(self).wf(),
            final(self)@ == old(self)@.settled(),
    {
        let p = match self.piece {
            Some(p) => p,
            None => {
                return ;
            },
        };
        proof {
            lemma_locked(self@.cells, p);
        }
        let mut in_buffer = false;
        let mut i: usize = 0;
        while i < 4
            invariant
                i <= 4,
                self.grid.wf(),
                p.on_grid(),
                self.piece == old(self).piece,
                self.session == old(self).session,
                self.timer == old(self).timer,
                self.schedule == old(self).schedule,
                in_buffer == (exists|j: int| 0 <= j < i && (#[trigger] p.cells[j]).y
                    < SPAWN_BUFFER_HEIGHT),
                forall|a: int|
                    0 <= a < GRID_CELLS ==> #[trigger] self.grid@[a] == if exists|j: int|
                        0 <= j < i && a == (#[trigger] p.cells[j]).addr() {
                        old(self).grid@[a].settled()
                    } else {
                        old(self).grid@[a]
                    },
            decreases 4 - i,
        {
            let c = p.cells[i];
            if c.y < SPAWN_BUFFER_HEIGHT {
                in_buffer = true;
            }
            let here = self.grid.read(c);
            match here {
                Ok(Cell::Current(b)) => {
                    let _ = self.grid.mark(c, Cell::Locked(b));
                },
                _ => {},
            }
            i += 1;
        }
        assert(in_buffer == p.in_buffer());
        assert(self.grid@ =~= locked(old(self)@.cells, p));
        proof {
            lemma_settled_well_formed(old(self)@);
        }
        self.piece = None;
        if self.session.forced_fall {
            self.session.add_score((self.session.drop_rows - 1) as u64);
        }
        if in_buffer {
            self.session.game_over = true;
            self.session.active = false;
            self.session.awaiting_spawn = false;
        } else {
            self.session.game_over = false;
            self.session.awaiting_spawn = true;
        }
    }

    /// Shifts the active piece as far as it may, each axis by itself, and
    /// returns by how many columns and rows it did.
    fn shift(&mut self, side: Sideways, down: bool) -> (by: (i32, i32))
        requires
            old(self).wf(),
            old(self)@.piece is Some,
        ensures
            final(self).wf(),
            final(self)@ == old(self)@.shifted(side, down),
            by.0 == old(self)@.shift_x(side),
            by.1 == old(self)@.shift_y(down),
    {
        let p = match self.piece {
            Some(p) => p,
            None => {
                return (0, 0);
            },
        };
        let dx = side.columns();
        let dy: i32 = if down {
            1
        } else {
            0
        };
        let can_x = self.cell_may_shift_x(p.cells[0], dx) && self.cell_may_shift_x(p.cells[1], dx)
            && self.cell_may_shift_x(p.cells[2], dx) && self.cell_may_shift_x(p.cells[3], dx);
        let can_y = self.cell_may_shift_y(p.cells[0], dy) && self.cell_may_shift_y(p.cells[1], dy)
            && self.cell_may_shift_y(p.cells[2], dy) && self.cell_may_shift_y(p.cells[3], dy);
        let by_x: i32 = if can_x {
            dx
        } else {
            0
        };
        let by_y: i32 = if can_y {
            dy
        } else {
            0
        };
        if by_x != 0 || by_y != 0 {
            let to = Piece {
                shape: p.shape,
                cells: [
                    MatrixPosition { x: p.cells[0].x + by_x, y: p.cells[0].y + by_y },
                    MatrixPosition { x: p.cells[1].x + by_x, y: p.cells[1].y + by_y },
                    MatrixPosition { x: p.cells[2].x + by_x, y: p.cells[2].y + by_y },
                    MatrixPosition { x: p.cells[3].x + by_x, y: p.cells[3].y + by_y },
                ],
            };
            proof {
                lemma_moved_on_grid(p, by_x as int, by_y as int);
                assert(to.cells@ =~= p.moved_by(by_x as int, by_y as int).cells@);
                assert(to.cells == p.moved_by(by_x as int, by_y as int).cells);
            }
            self.replace_piece(&p, to, true);
        }
        (by_x, by_y)
    }

    /// Moves the active piece: sideways as `side` asks, and one row down
    /// where `down` is set. Each axis is decided by itself, for all four
    /// cells at once: the piece shifts on an axis only where every cell stays
    /// in the field and meets no block of the heap on that axis. A piece that
    /// was to go down and could not is settled on the heap where it then
    /// stands; with a cell in the spawn buffer that loses the game.
    pub fn translate(&mut self, side: Sideways, down: bool) -> (m: Motion)
        requires
            old(self).wf(),
        ensures
            final(self).wf(),
            final(self)@ == old(self)@.translated(side, down),
            m == old(self)@.motion(side, down),
    {
        if self.piece.is_none() {
            return Motion { dx: 0, dy: 0, locked: false };
        }
        let by = self.shift(side, down);
        let lands = down && by.1 == 0;
        if lands {
            self.lock();
        }
        Motion { dx: by.0, dy: by.1, locked: lands }
    }
}

} // verus!
