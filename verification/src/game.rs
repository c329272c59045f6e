//! The game: the grid, the active piece and the session, kept in agreement.

use vstd::prelude::*;
use crate::fault::Fault;
use crate::geometry::{
    MatrixPosition, FIELD_WIDTH, FULL_HEIGHT, GRID_CELLS, SPAWN_BUFFER_HEIGHT,
};
use crate::grid::{empty_grid, Block, Cell, Grid};
use crate::piece::{erased, lemma_replaced, placed, Piece};
use crate::session::{Session, MAX_LEVEL};
use crate::timer::{DropTimer, FallSchedule};

verus! {

/// What a game is, as plain values: the cells of the grid row by row, the
/// active piece if there is one, the session, the drop timer, and the fall
/// interval of each level.
pub struct GameView {
    pub cells: Seq<Cell>,
    pub piece: Option<Piece>,
    pub session: Session,
    pub timer: DropTimer,
    pub intervals: Seq<u64>,
}

/// Whether the cell at the linear address `a`, which holds `cell`, agrees
/// with `piece`: it holds a block of the active piece exactly if the piece
/// covers it, and then one with the shape of the piece.
pub open spec fn cell_agrees(cell: Cell, a: int, piece: Option<Piece>) -> bool {
    match piece {
        Some(p) => (cell is Current <==> p.covers(a)) && (cell matches Cell::Current(b)
            ==> b.shape == p.shape),
        None => !(cell is Current),
    }
}

/// Whether exactly the cells of `piece` hold a block of the active piece in
/// the grid `cells`, each with the shape of the piece; with no piece, whether
/// no cell holds one.
pub open spec fn agrees(cells: Seq<Cell>, piece: Option<Piece>) -> bool {
    forall|a: int| 0 <= a < cells.len() ==> cell_agrees(#[trigger] cells[a], a, piece)
}

/// Whether a block of the heap stands in the spawn buffer.
pub open spec fn heap_in_buffer(cells: Seq<Cell>) -> bool {
    exists|a: int| 0 <= a < SPAWN_BUFFER_HEIGHT * FIELD_WIDTH && #[trigger] cells[a] is Locked
}

/// Whether a grid, a piece and a session agree. The grid has one cell for
/// each position of the field. The session is well formed. There is a piece
/// exactly while the session neither awaits one nor is lost; it sits on the
/// grid, and exactly its cells are marked as the active piece's. And the game
/// is lost exactly when a block of the heap stands in the spawn buffer.
pub open spec fn consistent(cells: Seq<Cell>, piece: Option<Piece>, session: Session) -> bool {
    &&& cells.len() == GRID_CELLS
    &&& session.wf()
    &&& piece is Some <==> !session.awaiting_spawn && !session.game_over
    &&& piece matches Some(p) ==> p.on_grid()
    &&& agrees(cells, piece)
    &&& session.game_over == heap_in_buffer(cells)
}

/// Two grids that hold blocks of the heap in the same cells of the spawn
/// buffer have the heap in the buffer both, or neither.
pub proof fn lemma_same_heap_in_buffer(before: Seq<Cell>, after: Seq<Cell>)
    requires
        forall|a: int|
            0 <= a < SPAWN_BUFFER_HEIGHT * FIELD_WIDTH ==> (#[trigger] before[a] is Locked
                <==> #[trigger] after[a] is Locked),
    ensures
        heap_in_buffer(before) == heap_in_buffer(after),
{
    if heap_in_buffer(before) {
        let a = choose|a: int|
            0 <= a < SPAWN_BUFFER_HEIGHT * FIELD_WIDTH && #[trigger] before[a] is Locked;
        assert(after[a] is Locked);
    }
    if heap_in_buffer(after) {
        let a = choose|a: int|
            0 <= a < SPAWN_BUFFER_HEIGHT * FIELD_WIDTH && #[trigger] after[a] is Locked;
        assert(before[a] is Locked);
    }
}

impl GameView {
    /// What holds of every game: the grid, the active piece and the session
    /// agree, as `consistent` says, and every level has its fall interval.
    pub open spec fn wf(self) -> bool {
        &&& consistent(self.cells, self.piece, self.session)
        &&& self.intervals.len() == MAX_LEVEL
    }

    /// The game at its start, with the given fall intervals: an empty grid,
    /// no piece, a fresh session, and the drop timer at the start of the
    /// interval of level 1.
    pub open spec fn initial(intervals: Seq<u64>) -> GameView {
        GameView {
            cells: empty_grid(),
            piece: None,
            session: Session::fresh(),
            timer: DropTimer { interval: intervals[0], elapsed: 0 },
            intervals,
        }
    }
}

/// Whether a grid, a piece and a session agree: the full check of the grid
/// against what it belongs to.
fn parts_agree(grid: &Grid, piece: Option<Piece>, session: Session) -> (ok: bool)
    requires
        grid.wf(),
    ensures
        ok == consistent(grid@, piece, session),
{
    if !session.is_valid() {
        return false;
    }
    if piece.is_some() != (!session.awaiting_spawn && !session.game_over) {
        return false;
    }
    match piece {
        Some(p) => {
            if !p.is_on_grid() {
                return false;
            }
        },
        None => {},
    }
    let mut heap_high = false;
    let mut y: i32 = 0;
    while y < FULL_HEIGHT
        invariant
            grid.wf(),
            0 <= y <= FULL_HEIGHT,
            piece matches Some(p) ==> p.on_grid(),
            forall|a: int| 0 <= a < y * FIELD_WIDTH ==> cell_agrees(#[trigger] grid@[a], a, piece),
            heap_high == (exists|a: int|
                0 <= a < y * FIELD_WIDTH && a < SPAWN_BUFFER_HEIGHT * FIELD_WIDTH
                    && #[trigger] grid@[a] is Locked),
        decreases FULL_HEIGHT - y,
    {
        let mut x: i32 = 0;
        while x < FIELD_WIDTH
            invariant
                grid.wf(),
                0 <= y < FULL_HEIGHT,
                0 <= x <= FIELD_WIDTH,
                piece matches Some(p) ==> p.on_grid(),
                forall|a: int|
                    0 <= a < y * FIELD_WIDTH + x ==> cell_agrees(#[trigger] grid@[a], a, piece),
                heap_high == (exists|a: int|
                    0 <= a < y * FIELD_WIDTH + x && a < SPAWN_BUFFER_HEIGHT * FIELD_WIDTH
                        && #[trigger] grid@[a] is Locked),
            decreases FIELD_WIDTH - x,
        {
            let pos = MatrixPosition { x, y };
            let covered = match piece {
                Some(p) => p.stands_on(pos),
                None => false,
            };
            let here = grid.read(pos);
            let ok = match here {
                Ok(Cell::Current(b)) => covered && match piece {
                    Some(p) => b.shape == p.shape,
                    None => false,
                },
                _ => !covered,
            };
            if !ok {
                assert(!cell_agrees(grid@[pos.addr()], pos.addr(), piece));
                return false;
            }
            match here {
                Ok(Cell::Locked(_)) => {
                    if y < SPAWN_BUFFER_HEIGHT {
                        assert(grid@[pos.addr()] is Locked);
                        heap_high = true;
                    }
                },
                _ => {},
            }
            x += 1;
        }
        y += 1;
    }
    assert(heap_high == heap_in_buffer(grid@));
    heap_high == session.game_over
}

/// The game: the single owner of the grid, the active piece, the session and
/// the drop timer.
pub struct Game {
    pub(crate) grid: Grid,
    pub(crate) piece: Option<Piece>,
    pub(crate) session: Session,
    pub(crate) timer: DropTimer,
    pub(crate) schedule: FallSchedule,
}

impl View for Game {
    type V = GameView;

    open(crate) spec fn view(&self) -> GameView {
        GameView {
            cells: self.grid@,
            piece: self.piece,
            session: self.session,
            timer: self.timer,
            intervals: self.schedule@,
        }
    }
}

impl Game {
    /// What holds of every game: see `GameView::wf`.
    pub open spec fn wf(&self) -> bool {
        self@.wf()
    }

    /// A game at its start, with the given fall intervals.
    pub fn new(schedule: FallSchedule) -> (game: Game)
        requires
            schedule.wf(),
        ensures
            game.wf(),
            game@ == GameView::initial(schedule@),
    {
        let first = match schedule.interval(1) {
            Some(interval) => interval,
            None => 0,
        };
        Game {
            grid: Grid::new(),
            piece: None,
            session: Session::new(),
            timer: DropTimer::new(first),
            schedule,
        }
    }

    /// Puts a game together from its parts, if they agree: the session is
    /// well formed, there is a piece exactly while the session neither awaits
    /// one nor is lost, the piece sits on the grid, exactly its cells are
    /// marked as the active piece's, with its shape, and the game is lost
    /// exactly when the heap stands in the spawn buffer. Parts that disagree
    /// are a fault.
    pub fn assemble(
        grid: Grid,
        piece: Option<Piece>,
        session: Session,
        timer: DropTimer,
        schedule: FallSchedule,
    ) -> (r: Result<Game, Fault>)
        requires
            grid.wf(),
            schedule.wf(),
        ensures
            match r {
                Ok(game) => game.wf() && game@ == (GameView {
                    cells: grid@,
                    piece,
                    session,
                    timer,
                    intervals: schedule@,
                }),
                Err(fault) => fault == Fault::OccupancyMismatch && !(GameView {
                    cells: grid@,
                    piece,
                    session,
                    timer,
                    intervals: schedule@,
                }).wf(),
            },
    {
        if !parts_agree(&grid, piece, session) {
            return Err(Fault::OccupancyMismatch);
        }
        Ok(Game { grid, piece, session, timer, schedule })
    }

    /// Checks the game against what holds of every game: the full check of
    /// the grid against the piece and the session, for whoever will not rely
    /// on it unchecked.
    pub fn is_consistent(&self) -> (ok: bool)
        ensures
            ok == self.wf(),
    {
        self.grid.is_whole() && self.schedule.is_whole() && parts_agree(
            &self.grid,
            self.piece,
            self.session,
        )
    }

    /// The grid.
    pub fn grid(&self) -> (g: &Grid)
        ensures
            g@ == self@.cells,
    {
        &self.grid
    }

    /// The active piece, if there is one.
    pub fn piece(&self) -> (p: Option<Piece>)
        ensures
            p == self@.piece,
    {
        self.piece
    }

    /// The session.
    pub fn session(&self) -> (s: Session)
        ensures
            s == self@.session,
    {
        self.session
    }

    /// The drop timer.
    pub fn timer(&self) -> (t: DropTimer)
        ensures
            t == self@.timer,
    {
        self.timer
    }

    /// The fall interval of each level.
    pub fn schedule(&self) -> (s: &FallSchedule)
        ensures
            s@ == self@.intervals,
    {
        &self.schedule
    }

    /// Takes the active piece from the cells of `from` to those of `to`:
    /// empties the first, then marks the second as the active piece's.
    pub(crate) fn replace_piece(&mut self, from: &Piece, to: Piece, moved: bool)
        requires
            old(self).wf(),
            old(self)@.piece == Some(*from),
            to.on_grid(),
            to.shape == from.shape,
        ensures
            final(self).wf(),
            final(self)@ == (GameView {
                cells: placed(erased(old(self)@.cells, *from), to, moved),
                piece: Some(to),
                ..old(self)@
            }),
    {
        let _ = self.grid.mark(from.cells[0], Cell::Empty);
        let _ = self.grid.mark(from.cells[1], Cell::Empty);
        let _ = self.grid.mark(from.cells[2], Cell::Empty);
        let _ = self.grid.mark(from.cells[3], Cell::Empty);
        let block = Cell::Current(Block { shape: to.shape, moved });
        let _ = self.grid.mark(to.cells[0], block);
        let _ = self.grid.mark(to.cells[1], block);
        let _ = self.grid.mark(to.cells[2], block);
        let _ = self.grid.mark(to.cells[3], block);
        self.piece = Some(to);
        proof {
            lemma_replaced(old(self)@.cells, *from, to, moved);
        }
    }
}

} // verus!
