//! Laws of the engine: what holds of every game, whatever was played.

use vstd::prelude::*;
use crate::catalog::TetrominoType;
use crate::engine::Intents;
use crate::fault::Fault;
use crate::game::GameView;
use crate::geometry::{MatrixPosition, FIELD_WIDTH, FULL_HEIGHT};
use crate::grid::Cell;
use crate::movement::lemma_move_keeps_well_formed;
use crate::piece::{lemma_replaced, Piece};
use crate::rotation::{
    lemma_turned_on_grid, rotated_block, rotation_delta, scan_area, BoxClass, Rotation,
};
use crate::spawn::lemma_spawn_keeps_well_formed;

verus! {

/// The number of empty cells among `cells`.
pub open spec fn count_empty(cells: Seq<Cell>) -> nat
    decreases cells.len(),
{
    if cells.len() == 0 {
        0
    } else if cells.last() is Empty {
        1 + count_empty(cells.drop_last())
    } else {
        count_empty(cells.drop_last())
    }
}

/// The number of cells among `cells` that hold a block of the active piece.
pub open spec fn count_current(cells: Seq<Cell>) -> nat
    decreases cells.len(),
{
    if cells.len() == 0 {
        0
    } else if cells.last() is Current {
        1 + count_current(cells.drop_last())
    } else {
        count_current(cells.drop_last())
    }
}

/// The number of cells among `cells` that hold a block of the heap.
pub open spec fn count_locked(cells: Seq<Cell>) -> nat
    decreases cells.len(),
{
    if cells.len() == 0 {
        0
    } else if cells.last() is Locked {
        1 + count_locked(cells.drop_last())
    } else {
        count_locked(cells.drop_last())
    }
}

/// Every cell is empty, a block of the active piece or a block of the heap,
/// and only one of them.
pub proof fn lemma_counts_add_up(cells: Seq<Cell>)
    ensures
        count_empty(cells) + count_current(cells) + count_locked(cells) == cells.len(),
    decreases cells.len(),
{
    if cells.len() > 0 {
        lemma_counts_add_up(cells.drop_last());
    }
}

/// Where no cell holds a block of the active piece, their number is zero.
pub proof fn lemma_count_none(cells: Seq<Cell>)
    requires
        forall|a: int| 0 <= a < cells.len() ==> !(#[trigger] cells[a] is Current),
    ensures
        count_current(cells) == 0,
    decreases cells.len(),
{
    if cells.len() > 0 {
        lemma_count_none(cells.drop_last());
    }
}

/// Emptying a cell that holds a block of the active piece leaves one such
/// cell fewer.
pub proof fn lemma_count_without(cells: Seq<Cell>, a: int)
    requires
        0 <= a < cells.len(),
        cells[a] is Current,
    ensures
        count_current(cells) == 1 + count_current(cells.update(a, Cell::Empty)),
    decreases cells.len(),
{
    if a == cells.len() - 1 {
        assert(cells.update(a, Cell::Empty).drop_last() =~= cells.drop_last());
    } else {
        lemma_count_without(cells.drop_last(), a);
        assert(cells.update(a, Cell::Empty).drop_last() =~= cells.drop_last().update(
            a,
            Cell::Empty,
        ));
    }
}

/// The cells of the grid are as many as the field has positions, each of them
/// empty, a block of the active piece or a block of the heap; and the blocks
/// of the active piece are four, or none.
pub proof fn lemma_cell_counts(game: GameView)
    requires
        game.wf(),
    ensures
        count_empty(game.cells) + count_current(game.cells) + count_locked(game.cells)
            == FIELD_WIDTH * FULL_HEIGHT,
        count_current(game.cells) == 0 || count_current(game.cells) == 4,
        count_current(game.cells) == 4 <==> game.piece is Some,
{
    lemma_counts_add_up(game.cells);
    match game.piece {
        None => {
            lemma_count_none(game.cells);
        },
        Some(p) => {
            let c0 = game.cells;
            let c1 = c0.update(p.cells[0].addr(), Cell::Empty);
            let c2 = c1.update(p.cells[1].addr(), Cell::Empty);
            let c3 = c2.update(p.cells[2].addr(), Cell::Empty);
            let c4 = c3.update(p.cells[3].addr(), Cell::Empty);
            assert(c0[p.cells[0].addr()] is Current);
            assert(c0[p.cells[1].addr()] is Current);
            assert(c0[p.cells[2].addr()] is Current);
            assert(c0[p.cells[3].addr()] is Current);
            lemma_count_without(c0, p.cells[0].addr());
            lemma_count_without(c1, p.cells[1].addr());
            lemma_count_without(c2, p.cells[2].addr());
            lemma_count_without(c3, p.cells[3].addr());
            assert forall|a: int| 0 <= a < c4.len() implies !(#[trigger] c4[a] is Current) by {
                assert(c0[a] is Current <==> p.covers(a));
            }
            lemma_count_none(c4);
        },
    }
}

/// A rotation keeps the game well formed: the piece stays on the grid, all of
/// it. And where one of the cells that the piece would turn to lies outside
/// the field, the rotation changes nothing.
pub proof fn lemma_rotation_stays_in_field(game: GameView, dir: Rotation)
    requires
        game.wf(),
    ensures
        game.rotated(dir).wf(),
        game.rotated(dir).piece matches Some(q) ==> q.cells[0].in_field() && q.cells[1].in_field()
            && q.cells[2].in_field() && q.cells[3].in_field(),
        game.piece matches Some(p) && !(p.turned(dir).cells[0].in_field() && p.turned(
            dir,
        ).cells[1].in_field() && p.turned(dir).cells[2].in_field() && p.turned(
            dir,
        ).cells[3].in_field()) ==> game.rotated(dir) == game,
{
    if game.rotation_outcome(dir) == Ok::<bool, Fault>(true) {
        let p = game.piece->Some_0;
        lemma_turned_on_grid(p, dir);
        lemma_replaced(game.cells, p, p.turned(dir), true);
    }
}

/// The game after each rotation of `dirs` was asked for in turn.
pub open spec fn rotated_all(game: GameView, dirs: Seq<Rotation>) -> GameView
    decreases dirs.len(),
{
    if dirs.len() == 0 {
        game
    } else {
        rotated_all(game, dirs.drop_last()).rotated(dirs.last())
    }
}

/// A piece with a square bounding box never rotates: whatever rotations are
/// asked for, one after the other, the game stays as it is.
pub proof fn lemma_square_never_rotates(game: GameView, dirs: Seq<Rotation>)
    requires
        game.piece matches Some(p) && p.class() == Some(BoxClass::Square),
    ensures
        rotated_all(game, dirs) == game,
    decreases dirs.len(),
{
    reveal(scan_area);
    if dirs.len() > 0 {
        lemma_square_never_rotates(game, dirs.drop_last());
    }
}

/// Whether the bounding box of the piece is a bar, upright or lying.
pub open spec fn is_bar(p: Piece) -> bool {
    p.class() == Some(BoxClass::TallBar) || p.class() == Some(BoxClass::WideBar)
}

/// The direction against `dir`.
pub open spec fn opposite(dir: Rotation) -> Rotation {
    match dir {
        Rotation::Clockwise => Rotation::CounterClockwise,
        Rotation::CounterClockwise => Rotation::Clockwise,
    }
}

/// Where a bar stands after a rotation: an upright bar lies in the row of its
/// second cell from the top, a lying bar stands in a column next to its
/// second cell from the left, one row higher.
pub proof fn lemma_bar_turned_bounds(p: Piece, dir: Rotation)
    requires
        p.on_grid(),
        is_bar(p),
    ensures
        p.class() == Some(BoxClass::TallBar) ==> p.turned(dir).class() == Some(BoxClass::WideBar)
            && p.turned(dir).bounds().min_y == p.bounds().min_y + 1 && p.turned(
            dir,
        ).bounds().min_x == (if dir == Rotation::Clockwise {
            p.bounds().min_x - 1
        } else {
            p.bounds().min_x - 2
        }),
        p.class() == Some(BoxClass::WideBar) ==> p.turned(dir).class() == Some(BoxClass::TallBar)
            && p.turned(dir).bounds().min_y == p.bounds().min_y - 1 && p.turned(
            dir,
        ).bounds().min_x == (if dir == Rotation::Clockwise {
            p.bounds().min_x + 1
        } else {
            p.bounds().min_x + 2
        }),
{
    reveal(rotation_delta);
}

/// Where a block of a bar is after two rotations, the first in direction
/// `first` and the second in direction `second`, as a place in the bar's
/// first bounding box, whose top-left corner is `(min_x, min_y)`. After two
/// rotations in the same direction the block is back. After a rotation and
/// one against it the bar stands one column over, end for end.
pub open spec fn bar_block_after_two(
    class: BoxClass,
    first: Rotation,
    second: Rotation,
    x: int,
    y: int,
    min_x: int,
    min_y: int,
) -> (int, int) {
    if first == second {
        (x, y)
    } else {
        let step: int = if first == Rotation::Clockwise {
            1
        } else {
            -1
        };
        if class == BoxClass::TallBar {
            (x + step, 2 * min_y + 3 - y)
        } else {
            (2 * min_x + 3 - x - step, y)
        }
    }
}

/// The top-left corner of the bounding box of a bar after a rotation in
/// direction `dir`, the corner before it being `(min_x, min_y)`.
pub open spec fn bar_corner_after(class: BoxClass, dir: Rotation, min_x: int, min_y: int) -> (
    int,
    int,
) {
    if class == BoxClass::TallBar {
        (
            if dir == Rotation::Clockwise {
                min_x - 1
            } else {
                min_x - 2
            },
            min_y + 1,
        )
    } else {
        (
            if dir == Rotation::Clockwise {
                min_x + 1
            } else {
                min_x + 2
            },
            min_y - 1,
        )
    }
}

/// A block of a bar goes through two rotations as `bar_block_after_two` says.
pub proof fn lemma_bar_block_after_two(
    upright: bool,
    first: Rotation,
    second: Rotation,
    x: int,
    y: int,
    min_x: int,
    min_y: int,
)
    requires
        upright ==> x == min_x && min_y <= y <= min_y + 3,
        !upright ==> y == min_y && min_x <= x <= min_x + 3,
    ensures
        ({
            let class = if upright {
                BoxClass::TallBar
            } else {
                BoxClass::WideBar
            };
            let (w, h): (int, int) = if upright {
                (1, 4)
            } else {
                (4, 1)
            };
            let corner = bar_corner_after(class, first, min_x, min_y);
            &&& rotated_block(x, y, min_x, min_y, w, h, first) matches Some((x1, y1))
            &&& x - 2 <= x1 <= x + 2
            &&& y - 2 <= y1 <= y + 2
            &&& rotated_block(x1, y1, corner.0, corner.1, h, w, second) == Some(
                bar_block_after_two(class, first, second, x, y, min_x, min_y),
            )
        }),
{
    reveal(rotation_delta);
}

/// Every cell of a bar goes through two rotations as `bar_block_after_two`
/// says.
pub proof fn lemma_bar_turned_twice(p: Piece, first: Rotation, second: Rotation, i: int)
    requires
        p.on_grid(),
        is_bar(p),
        p.turned(first).on_grid(),
        0 <= i < 4,
    ensures
        ({
            let b = p.bounds();
            let to = bar_block_after_two(
                p.class()->Some_0,
                first,
                second,
                p.cells[i].x as int,
                p.cells[i].y as int,
                b.min_x as int,
                b.min_y as int,
            );
            p.turned(first).turned(second).cells[i] == (MatrixPosition {
                x: to.0 as i32,
                y: to.1 as i32,
            })
        }),
{
    let b = p.bounds();
    let q = p.turned(first);
    lemma_bar_turned_bounds(p, first);
    lemma_bar_block_after_two(
        p.class() == Some(BoxClass::TallBar),
        first,
        second,
        p.cells[i].x as int,
        p.cells[i].y as int,
        b.min_x as int,
        b.min_y as int,
    );
    assert(q.cells[i] == p.turned_cell(i, first)) by {
        assert(i == 0 || i == 1 || i == 2 || i == 3);
    }
    assert(q.turned(second).cells[i] == q.turned_cell(i, second)) by {
        assert(i == 0 || i == 1 || i == 2 || i == 3);
    }
}

/// Two rotations of a bar in the same direction, both applied, bring every
/// cell of it back to where it was.
pub proof fn lemma_bar_turned_twice_one_way(game: GameView, dir: Rotation)
    requires
        game.wf(),
        game.piece matches Some(p) && is_bar(p),
        game.rotation_outcome(dir) == Ok::<bool, Fault>(true),
        game.rotated(dir).rotation_outcome(dir) == Ok::<bool, Fault>(true),
    ensures
        game.rotated(dir).rotated(dir).piece == game.piece,
{
    let p = game.piece->Some_0;
    lemma_turned_on_grid(p, dir);
    lemma_bar_turned_twice(p, dir, dir, 0);
    lemma_bar_turned_twice(p, dir, dir, 1);
    lemma_bar_turned_twice(p, dir, dir, 2);
    lemma_bar_turned_twice(p, dir, dir, 3);
    let back = p.turned(dir).turned(dir);
    assert(back.cells@ =~= p.cells@);
    assert(back.cells == p.cells);
}

/// Where cell `i` of a bar is after a rotation in direction `dir` and one
/// against it: one column over, and at the other end of the bar.
pub open spec fn there_and_back(p: Piece, dir: Rotation, i: int) -> MatrixPosition {
    let b = p.bounds();
    let step: int = if dir == Rotation::Clockwise {
        1
    } else {
        -1
    };
    if p.class() == Some(BoxClass::TallBar) {
        MatrixPosition {
            x: (p.cells[i].x + step) as i32,
            y: (b.min_y + b.max_y - p.cells[i].y) as i32,
        }
    } else {
        MatrixPosition {
            x: (b.min_x + b.max_x - p.cells[i].x - step) as i32,
            y: p.cells[i].y,
        }
    }
}

/// Every cell of a bar goes through a rotation and one against it as
/// `there_and_back` says.
pub proof fn lemma_bar_cell_there_and_back(p: Piece, dir: Rotation, i: int)
    requires
        p.on_grid(),
        is_bar(p),
        p.turned(dir).on_grid(),
        0 <= i < 4,
    ensures
        p.turned(dir).turned(opposite(dir)).cells[i] == there_and_back(p, dir, i),
{
    lemma_bar_turned_twice(p, dir, opposite(dir), i);
    assert(i == 0 || i == 1 || i == 2 || i == 3);
}

/// A rotation of a bar and one against it, both applied, do not bring the bar
/// back: it has its first direction again, but stands one column over, and
/// end for end. An upright bar ends one column to the right after a clockwise
/// and a counter-clockwise rotation, one to the left after the two in the
/// other order; a lying bar ends one column to the left after a clockwise and
/// a counter-clockwise rotation, one to the right after the two in the other
/// order.
pub proof fn lemma_bar_turned_there_and_back(game: GameView, dir: Rotation)
    requires
        game.wf(),
        game.piece matches Some(p) && is_bar(p),
        game.rotation_outcome(dir) == Ok::<bool, Fault>(true),
        game.rotated(dir).rotation_outcome(opposite(dir)) == Ok::<bool, Fault>(true),
    ensures
        game.rotated(dir).rotated(opposite(dir)).piece matches Some(q) && q.cells[0]
            == there_and_back(game.piece->Some_0, dir, 0) && q.cells[1] == there_and_back(
            game.piece->Some_0,
            dir,
            1,
        ) && q.cells[2] == there_and_back(game.piece->Some_0, dir, 2) && q.cells[3]
            == there_and_back(game.piece->Some_0, dir, 3),
{
    let p = game.piece->Some_0;
    lemma_turned_on_grid(p, dir);
    lemma_bar_cell_there_and_back(p, dir, 0);
    lemma_bar_cell_there_and_back(p, dir, 1);
    lemma_bar_cell_there_and_back(p, dir, 2);
    lemma_bar_cell_there_and_back(p, dir, 3);
    assert(game.rotated(dir).piece == Some(p.turned(dir)));
    assert(game.rotated(dir).rotated(opposite(dir)).piece == Some(
        p.turned(dir).turned(opposite(dir)),
    ));
}

/// Within a session neither the score nor the level ever goes down: a tick
/// that does not restart the game leaves both as they were or higher.
pub proof fn lemma_score_and_level_never_fall(
    game: GameView,
    intents: Intents,
    elapsed: int,
    next: TetrominoType,
)
    requires
        game.wf(),
        !intents.restart,
    ensures
        game.ticked(intents, elapsed, next).session.score >= game.session.score,
        game.ticked(intents, elapsed, next).session.level >= game.session.level,
{
}

/// What holds of every game holds at all times: a tick leaves a well-formed
/// game well formed, whatever is asked for, however much time passes and
/// whichever piece comes next.
pub proof fn lemma_tick_keeps_well_formed(
    game: GameView,
    intents: Intents,
    elapsed: int,
    next: TetrominoType,
)
    requires
        game.wf(),
    ensures
        game.ticked(intents, elapsed, next).wf(),
{
    let clocked = game.clocked(elapsed);
    let fired = game.timer.fires(elapsed);
    if !intents.restart {
        let prepared = clocked.prepared(intents);
        assert(prepared.wf());
        if clocked.plays(intents) {
            let turned = clocked.turned(intents);
            match clocked.tick_turn(intents) {
                Some(dir) => {
                    lemma_rotation_stays_in_field(prepared, dir);
                },
                None => {},
            }
            assert(turned.wf());
            lemma_move_keeps_well_formed(
                turned,
                clocked.tick_side(intents),
                clocked.tick_down(intents, fired),
            );
        }
        lemma_spawn_keeps_well_formed(clocked.advanced(intents, fired), next);
    }
}

/// A tick that does not report a change of the grid has left the grid and
/// the piece as they were.
pub proof fn lemma_quiet_tick_keeps_grid(
    game: GameView,
    intents: Intents,
    elapsed: int,
    next: TetrominoType,
)
    requires
        game.wf(),
        !game.tick_report(intents, elapsed, next).touched_grid(),
    ensures
        game.ticked(intents, elapsed, next).cells == game.cells,
        game.ticked(intents, elapsed, next).piece == game.piece,
{
}

} // verus!
