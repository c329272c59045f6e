//! The spawn cycle: before the next piece appears, full rows are cleared and
//! scored.

use vstd::prelude::*;
use crate::catalog::TetrominoType;
use crate::game::{heap_in_buffer, Game, GameView};
use crate::geometry::{FIELD_WIDTH, GRID_CELLS, SPAWN_BUFFER_HEIGHT};
use crate::grid::{empty_grid, Block, Cell};
use crate::lines::{
    compacted, full_rows, kept_rows_from, lemma_kept_comes_down, lemma_kept_in_grid,
    lemma_rows_split,
};
use crate::piece::{placed, Piece};
use crate::session::Session;
use crate::timer::DropTimer;

verus! {

/// What a spawn cycle did.
#[derive(Clone, Copy, Debug, PartialEq, Eq, Structural)]
pub struct Spawned {
    /// The shape of the new piece.
    pub shape: TetrominoType,
    /// The number of rows cleared before it appeared.
    pub rows_cleared: u32,
    /// Whether those rows completed the level.
    pub level_completed: bool,
}

impl Session {
    /// The session as a spawn cycle finds it once it has begun: no piece is
    /// awaited any more, and no hard drop is in progress.
    pub open spec fn spawning(self) -> Session {
        Session { awaiting_spawn: false, forced_fall: false, drop_rows: 0, ..self }
    }
}

impl GameView {
    /// The game after a spawn cycle with a piece of shape `shape`. Where no
    /// piece is awaited, nothing changes. Otherwise the full rows are taken
    /// out and scored, the new piece stands in the spawn buffer, and the drop
    /// timer is armed with the fall interval of the level that the session
    /// then has, so that the piece begins to fall at once.
    pub open spec fn spawned(self, shape: TetrominoType) -> GameView {
        if self.session.awaiting_spawn {
            let session = self.session.spawning().after_rows(full_rows(self.cells) as int);
            GameView {
                cells: placed(compacted(self.cells), Piece::spawned(shape), false),
                piece: Some(Piece::spawned(shape)),
                session,
                timer: DropTimer::armed(self.intervals[session.level - 1]),
                intervals: self.intervals,
            }
        } else {
            self
        }
    }

    /// What a spawn cycle with a piece of shape `shape` reports: nothing
    /// where no piece is awaited.
    pub open spec fn spawn_report(self, shape: TetrominoType) -> Option<Spawned> {
        if self.session.awaiting_spawn {
            Some(
                Spawned {
                    shape,
                    rows_cleared: full_rows(self.cells) as u32,
                    level_completed: self.session.completes_level(full_rows(self.cells) as int),
                },
            )
        } else {
            None
        }
    }

    /// The game after a restart: the grid is empty, there is no piece, and
    /// the session is fresh. The drop timer goes on as it is; the spawn cycle
    /// that follows arms it.
    pub open spec fn restarted(self) -> GameView {
        GameView { cells: empty_grid(), piece: None, session: Session::fresh(), ..self }
    }
}

/// Taking out the full rows of a grid that holds no block of an active piece
/// leaves none in it.
pub proof fn lemma_compacted_holds_no_piece(cells: Seq<Cell>)
    requires
        cells.len() == GRID_CELLS,
        forall|a: int| 0 <= a < cells.len() ==> !(#[trigger] cells[a] is Current),
    ensures
        compacted(cells).len() == GRID_CELLS,
        forall|a: int| 0 <= a < GRID_CELLS ==> !(#[trigger] compacted(cells)[a] is Current),
{
    lemma_rows_split(cells, 0);
    assert forall|a: int| 0 <= a < GRID_CELLS implies !(#[trigger] compacted(cells)[a]
        is Current) by {
        let row = a / (FIELD_WIDTH as int);
        let cleared = full_rows(cells) as int;
        if row >= cleared {
            lemma_kept_in_grid(cells, 0, row - cleared);
        }
    }
}

/// Taking out the full rows of a grid whose spawn buffer holds no block of the
/// heap leaves none in it.
pub proof fn lemma_compacted_keeps_buffer_free(cells: Seq<Cell>)
    requires
        cells.len() == GRID_CELLS,
        !heap_in_buffer(cells),
    ensures
        !heap_in_buffer(compacted(cells)),
{
    lemma_rows_split(cells, 0);
    assert forall|a: int| 0 <= a < SPAWN_BUFFER_HEIGHT * FIELD_WIDTH implies !(#[trigger] compacted(
        cells,
    )[a] is Locked) by {
        let row = a / (FIELD_WIDTH as int);
        let column = a % (FIELD_WIDTH as int);
        let cleared = full_rows(cells) as int;
        if row >= cleared {
            lemma_kept_in_grid(cells, 0, row - cleared);
            lemma_kept_comes_down(cells, 0, row - cleared);
            let from = kept_rows_from(cells, 0)[row - cleared];
            assert(0 <= from <= row);
            assert(!(cells[from * FIELD_WIDTH + column] is Locked));
        }
    }
}

/// Marking the cells of a piece in a grid that holds no block of an active
/// piece leaves exactly those cells marked, with the shape of the piece.
pub proof fn lemma_placed(cells: Seq<Cell>, to: Piece, moved: bool)
    requires
        cells.len() == GRID_CELLS,
        to.on_grid(),
        forall|a: int| 0 <= a < cells.len() ==> !(#[trigger] cells[a] is Current),
    ensures
        placed(cells, to, moved).len() == GRID_CELLS,
        forall|a: int|
            0 <= a < GRID_CELLS ==> #[trigger] placed(cells, to, moved)[a] == if to.covers(a) {
                Cell::Current(Block { shape: to.shape, moved })
            } else {
                cells[a]
            },
{
}

/// A spawn cycle keeps the game well formed.
pub proof fn lemma_spawn_keeps_well_formed(game: GameView, shape: TetrominoType)
    requires
        game.wf(),
    ensures
        game.spawned(shape).wf(),
{
    if game.session.awaiting_spawn {
        let cleared = compacted(game.cells);
        let piece = Piece::spawned(shape);
        lemma_compacted_holds_no_piece(game.cells);
        lemma_compacted_keeps_buffer_free(game.cells);
        lemma_rows_split(game.cells, 0);
        lemma_placed(cleared, piece, false);
        let after = placed(cleared, piece, false);
        assert forall|a: int| 0 <= a < SPAWN_BUFFER_HEIGHT * FIELD_WIDTH implies !(
        #[trigger] after[a] is Locked) by {
            assert(!(cleared[a] is Locked));
        }
    }
}

impl Game {
    /// Runs the spawn cycle where a piece is awaited: clears the full rows,
    /// scores them, puts a new piece of shape `shape` in the spawn buffer, and
    /// arms the drop timer with the fall interval of the level. Ends a hard
    /// drop on the way. Where no piece is awaited it does nothing, and
    /// returns `None`.
    pub fn spawn_next(&mut self, shape: TetrominoType) -> (r: Option<Spawned>)
        requires
            old(self).wf(),
        ensures
            final(self).wf(),
            final(self)@ == old(self)@.spawned(shape),
            r == old(self)@.spawn_report(shape),
    {
        if !self.session.awaiting_spawn {
            return None;
        }
        self.session.awaiting_spawn = false;
        self.session.forced_fall = false;
        self.session.drop_rows = 0;
        proof {
            lemma_spawn_keeps_well_formed(old(self)@, shape);
            lemma_rows_split(self@.cells, 0);
        }
        let rows_cleared = self.grid.clear_lines();
        let level_completed = self.session.score_rows(rows_cleared);
        let piece = Piece::spawn(shape);
        let block = Cell::Current(Block { shape, moved: false });
        let _ = self.grid.mark(piece.cells[0], block);
        let _ = self.grid.mark(piece.cells[1], block);
        let _ = self.grid.mark(piece.cells[2], block);
        let _ = self.grid.mark(piece.cells[3], block);
        self.piece = Some(piece);
        match self.schedule.interval(self.session.level) {
            Some(interval) => {
                self.timer.arm(interval);
            },
            None => {},
        }
        Some(Spawned { shape, rows_cleared, level_completed })
    }

    /// Starts a new game: empties the grid, and resets the session.
    pub fn restart(&mut self)
        requires
            old(self).wf(),
        ensures
            final(self).wf(),
            final(self)@ == old(self)@.restarted(),
    {
        self.grid.clear();
        self.piece = None;
        self.session = Session::new();
    }
}

} // verus!
