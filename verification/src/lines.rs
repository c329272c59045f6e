//! Clearing lines: rows that the heap fills are taken out, and what lies
//! above them comes down.

use vstd::prelude::*;
use crate::geometry::{FIELD_WIDTH, FULL_HEIGHT, GRID_CELLS};
use crate::grid::{cell_at, row_full, Cell, Grid};

verus! {

/// The number of full rows from row `y` down to the floor. A row above the
/// grid counts as the first row.
pub open spec fn full_rows_from(cells: Seq<Cell>, y: int) -> nat
    decreases FULL_HEIGHT - y,
{
    if y >= FULL_HEIGHT {
        0
    } else if y < 0 {
        full_rows_from(cells, 0)
    } else if row_full(cells, y) {
        1 + full_rows_from(cells, y + 1)
    } else {
        full_rows_from(cells, y + 1)
    }
}

/// The rows from row `y` down to the floor that are not full, from the top.
pub open spec fn kept_rows_from(cells: Seq<Cell>, y: int) -> Seq<int>
    decreases FULL_HEIGHT - y,
{
    if y >= FULL_HEIGHT {
        Seq::empty()
    } else if y < 0 {
        kept_rows_from(cells, 0)
    } else if row_full(cells, y) {
        kept_rows_from(cells, y + 1)
    } else {
        seq![y] + kept_rows_from(cells, y + 1)
    }
}

/// The number of full rows of the grid.
pub open spec fn full_rows(cells: Seq<Cell>) -> nat {
    full_rows_from(cells, 0)
}

/// The grid after its full rows were taken out. The rows that are not full
/// stand at the bottom in the order they had, each one as many rows further
/// down as there were full rows below it, and the live cells of a row that
/// came down are flagged as moved. As many empty rows as there were full ones
/// stand on top.
pub open spec fn compacted(cells: Seq<Cell>) -> Seq<Cell> {
    Seq::new(
        cells.len(),
        |a: int|
            {
                let row = a / (FIELD_WIDTH as int);
                let column = a % (FIELD_WIDTH as int);
                let cleared = full_rows(cells) as int;
                if row < cleared {
                    Cell::Empty
                } else {
                    let from = kept_rows_from(cells, 0)[row - cleared];
                    if from == row {
                        cells[a]
                    } else {
                        cells[from * FIELD_WIDTH + column].shifted()
                    }
                }
            },
    )
}

/// From any row down, the full rows and the others make up all rows.
pub proof fn lemma_rows_split(cells: Seq<Cell>, y: int)
    requires
        0 <= y <= FULL_HEIGHT,
    ensures
        full_rows_from(cells, y) + kept_rows_from(cells, y).len() == FULL_HEIGHT - y,
    decreases FULL_HEIGHT - y,
{
    if y < FULL_HEIGHT {
        lemma_rows_split(cells, y + 1);
    }
}

/// Every kept row from row `t` down is a row of the grid, at or below `t`.
pub proof fn lemma_kept_in_grid(cells: Seq<Cell>, t: int, i: int)
    requires
        0 <= t <= FULL_HEIGHT,
        0 <= i < kept_rows_from(cells, t).len(),
    ensures
        t <= kept_rows_from(cells, t)[i] < FULL_HEIGHT,
    decreases FULL_HEIGHT - t,
{
    if t < FULL_HEIGHT {
        if row_full(cells, t) {
            lemma_kept_in_grid(cells, t + 1, i);
        } else if i > 0 {
            lemma_kept_in_grid(cells, t + 1, i - 1);
        }
    }
}

/// No kept row is full.
pub proof fn lemma_kept_not_full(cells: Seq<Cell>, t: int, i: int)
    requires
        0 <= t <= FULL_HEIGHT,
        0 <= i < kept_rows_from(cells, t).len(),
    ensures
        !row_full(cells, kept_rows_from(cells, t)[i]),
    decreases FULL_HEIGHT - t,
{
    if t < FULL_HEIGHT {
        if row_full(cells, t) {
            lemma_kept_not_full(cells, t + 1, i);
        } else if i > 0 {
            lemma_kept_not_full(cells, t + 1, i - 1);
        }
    }
}

/// Once the full rows of a grid were taken out, no row of it is full: one
/// pass clears them all, however many there are.
pub proof fn lemma_compacted_has_no_full_row(cells: Seq<Cell>, y: int)
    requires
        cells.len() == GRID_CELLS,
        0 <= y < FULL_HEIGHT,
    ensures
        !row_full(compacted(cells), y),
{
    let after = compacted(cells);
    let cleared = full_rows(cells) as int;
    lemma_rows_split(cells, 0);
    if y < cleared {
        assert(cell_at(after, 0, y) is Empty);
    } else {
        let from = kept_rows_from(cells, 0)[y - cleared];
        lemma_kept_in_grid(cells, 0, y - cleared);
        lemma_kept_not_full(cells, 0, y - cleared);
        let x = choose|x: int| 0 <= x < FIELD_WIDTH && !(#[trigger] cell_at(cells, x, from)
            is Locked);
        let a = y * FIELD_WIDTH + x;
        assert(a / (FIELD_WIDTH as int) == y && a % (FIELD_WIDTH as int) == x);
        assert(!(cell_at(after, x, y) is Locked));
    }
}

/// A kept row stands no further down among the rows from row `t` on than
/// its place among the kept rows and the number of full rows allow: the kept
/// rows come down, never up.
pub proof fn lemma_kept_comes_down(cells: Seq<Cell>, t: int, i: int)
    requires
        0 <= t <= FULL_HEIGHT,
        0 <= i < kept_rows_from(cells, t).len(),
    ensures
        kept_rows_from(cells, t)[i] <= t + i + full_rows_from(cells, t),
    decreases FULL_HEIGHT - t,
{
    if t < FULL_HEIGHT {
        if row_full(cells, t) {
            lemma_kept_comes_down(cells, t + 1, i);
        } else if i > 0 {
            lemma_kept_comes_down(cells, t + 1, i - 1);
        }
    }
}

/// A row that is not full stands among the kept rows from row `t` down at
/// the place that the number of kept rows above it, from `t` down, gives.
pub proof fn lemma_kept_place(cells: Seq<Cell>, t: int, j: int)
    requires
        0 <= t <= j < FULL_HEIGHT,
        !row_full(cells, j),
    ensures
        0 <= (j - t) - (full_rows_from(cells, t) - full_rows_from(cells, j)) < kept_rows_from(
            cells,
            t,
        ).len(),
        kept_rows_from(cells, t)[(j - t) - (full_rows_from(cells, t) - full_rows_from(cells, j))]
            == j,
    decreases j - t,
{
    lemma_rows_split(cells, t);
    lemma_rows_split(cells, j);
    lemma_rows_split(cells, j + 1);
    if t < j {
        lemma_kept_place(cells, t + 1, j);
        lemma_rows_split(cells, t + 1);
    }
}

impl Grid {
    /// Takes the block of rows from row 0 to row `y` one row down, row `y`
    /// being lost, and leaves row 0 empty.
    fn drop_rows_above(&mut self, y: i32)
        requires
            old(self).wf(),
            0 <= y < FULL_HEIGHT,
        ensures
            final(self).wf(),
            forall|a: int|
                0 <= a < GRID_CELLS ==> #[trigger] final(self)@[a] == if a < FIELD_WIDTH {
                    Cell::Empty
                } else if a < (y + 1) * FIELD_WIDTH {
                    old(self)@[a - FIELD_WIDTH].shifted()
                } else {
                    old(self)@[a]
                },
    {
        let mut y2: i32 = y;
        while y2 >= 1
            invariant
                self.wf(),
                old(self).wf(),
                0 <= y2 <= y < FULL_HEIGHT,
                forall|a: int|
                    0 <= a < GRID_CELLS ==> #[trigger] self@[a] == if (y2 + 1) * FIELD_WIDTH <= a
                        < (y + 1) * FIELD_WIDTH {
                        old(self)@[a - FIELD_WIDTH].shifted()
                    } else {
                        old(self)@[a]
                    },
            decreases y2,
        {
            let _ = self.shift_row_down(y2);
            y2 -= 1;
        }
        let _ = self.clear_row(0);
    }

    /// Clears the full rows of the grid, from the floor upward. Each full row
    /// is taken out: every row above it comes down by one, and the top row is
    /// emptied. The same row is then looked at again, since the row that came
    /// down may be full too. Returns the number of rows taken out.
    pub fn clear_lines(&mut self) -> (n: u32)
        requires
            old(self).wf(),
        ensures
            final(self).wf(),
            final(self)@ == compacted(old(self)@),
            n == full_rows(old(self)@),
            forall|y: int| 0 <= y < FULL_HEIGHT ==> !#[trigger] row_full(final(self)@, y),
    {
        let ghost o = self@;
        let mut y: i32 = FULL_HEIGHT - 1;
        let mut k: i32 = 0;
        proof {
            lemma_rows_split(o, 0);
        }
        while y >= 0
            invariant
                self.wf(),
                o == old(self)@,
                o.len() == GRID_CELLS,
                -1 <= y < FULL_HEIGHT,
                0 <= k <= FULL_HEIGHT,
                k == full_rows_from(o, y - k + 1),
                forall|a: int|
                    0 <= a < (y + 1) * FIELD_WIDTH ==> #[trigger] self@[a] == if a < k
                        * FIELD_WIDTH {
                        Cell::Empty
                    } else if k > 0 {
                        o[a - k * FIELD_WIDTH].shifted()
                    } else {
                        o[a]
                    },
                forall|a: int|
                    (y + 1) * FIELD_WIDTH <= a < GRID_CELLS ==> #[trigger] self@[a] == compacted(
                        o,
                    )[a],
            decreases y + 1, FULL_HEIGHT - k,
        {
            let full = match self.is_full_row(y) {
                Ok(full) => full,
                Err(_) => false,
            };
            let ghost j = y - k;
            let ghost g = self@;
            if full {
                proof {
                    assert(cell_at(g, 0, y as int) is Locked);
                    assert(y >= k);
                    assert forall|x: int| 0 <= x < FIELD_WIDTH implies #[trigger] cell_at(
                        o,
                        x,
                        j,
                    ) is Locked by {
                        assert(cell_at(g, x, y as int) is Locked);
                    }
                    assert(row_full(o, j));
                    lemma_rows_split(o, j);
                }
                self.drop_rows_above(y);
                k += 1;
            } else {
                proof {
                    if y >= k {
                        let x0 = choose|x: int|
                            0 <= x < FIELD_WIDTH && !(#[trigger] cell_at(g, x, y as int)
                                is Locked);
                        assert(!(cell_at(o, x0, j) is Locked));
                        assert(!row_full(o, j));
                        lemma_kept_place(o, 0, j);
                        lemma_rows_split(o, 0);
                        assert(kept_rows_from(o, 0)[y - full_rows(o)] == j);
                        assert forall|a: int|
                            y * FIELD_WIDTH <= a < (y + 1) * FIELD_WIDTH implies #[trigger] g[a]
                            == compacted(o)[a] by {
                            assert(a / (FIELD_WIDTH as int) == y);
                        }
                    } else {
                        assert(full_rows(o) == k);
                        assert forall|a: int|
                            y * FIELD_WIDTH <= a < (y + 1) * FIELD_WIDTH implies #[trigger] g[a]
                            == compacted(o)[a] by {
                            assert(a / (FIELD_WIDTH as int) == y);
                        }
                    }
                }
                y -= 1;
            }
        }
        assert(self@ =~= compacted(o));
        proof {
            assert forall|y: int| 0 <= y < FULL_HEIGHT implies !#[trigger] row_full(self@, y) by {
                lemma_compacted_has_no_full_row(o, y);
            }
        }
        k as u32
    }
}

} // verus!
