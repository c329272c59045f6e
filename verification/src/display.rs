//! What the engine shows to whatever presents it: the live cells with their
//! colours, and the session as text.

use vstd::prelude::*;
use vstd::string::StringExecFns;
use crate::catalog::Color;
use crate::game::{agrees, lemma_same_heap_in_buffer, Game, GameView};
use crate::geometry::{MatrixPosition, FIELD_WIDTH, FULL_HEIGHT, GRID_CELLS};
use crate::grid::{all_acknowledged, Cell};
use crate::session::Session;

verus! {

/// A live cell as it is shown.
#[derive(Clone, Copy, Debug, PartialEq, Eq, Structural)]
pub struct LiveCell {
    /// Where the cell is.
    pub position: MatrixPosition,
    /// The colour of the block in it.
    pub color: Color,
    /// Whether the block is settled on the heap; else it belongs to the
    /// active piece.
    pub settled: bool,
    /// Whether the block has changed position since the moves were last
    /// acknowledged.
    pub moved: bool,
}

/// The cell at the linear address `a` as it is shown, if it is live.
pub open spec fn shown(cell: Cell, a: int) -> Option<LiveCell> {
    let position = MatrixPosition {
        x: (a % (FIELD_WIDTH as int)) as i32,
        y: (a / (FIELD_WIDTH as int)) as i32,
    };
    match cell {
        Cell::Empty => None,
        Cell::Current(b) => Some(
            LiveCell { position, color: b.shape.tint(), settled: false, moved: b.moved },
        ),
        Cell::Locked(b) => Some(
            LiveCell { position, color: b.shape.tint(), settled: true, moved: b.moved },
        ),
    }
}

/// The live cells among the first `n` cells of the grid, as they are shown,
/// in the order of their addresses.
pub open spec fn live_among(cells: Seq<Cell>, n: int) -> Seq<LiveCell>
    decreases n,
{
    if n <= 0 {
        Seq::empty()
    } else {
        match shown(cells[n - 1], n - 1) {
            Some(live) => live_among(cells, n - 1).push(live),
            None => live_among(cells, n - 1),
        }
    }
}

/// The digit `d` as a character.
pub open spec fn digit(d: int) -> char {
    if d == 0 {
        '0'
    } else if d == 1 {
        '1'
    } else if d == 2 {
        '2'
    } else if d == 3 {
        '3'
    } else if d == 4 {
        '4'
    } else if d == 5 {
        '5'
    } else if d == 6 {
        '6'
    } else if d == 7 {
        '7'
    } else if d == 8 {
        '8'
    } else {
        '9'
    }
}

/// The number `n` in decimal digits.
pub open spec fn decimal(n: nat) -> Seq<char>
    decreases n,
{
    if n < 10 {
        seq![digit(n as int)]
    } else {
        decimal(n / 10).push(digit((n % 10) as int))
    }
}

/// The number `n` in decimal digits, in at least `width` of them: zeros stand
/// in front of a number that has fewer.
pub open spec fn zero_padded(n: nat, width: nat) -> Seq<char> {
    if decimal(n).len() < width {
        Seq::new((width - decimal(n).len()) as nat, |i: int| '0') + decimal(n)
    } else {
        decimal(n)
    }
}

/// The number of digits of the score as it is shown.
pub const SCORE_DIGITS: usize = 7;

/// The number of digits of the level as it is shown.
pub const LEVEL_DIGITS: usize = 2;

/// The digit `d` as text.
fn digit_text(d: u64) -> (text: &'static str)
    requires
        d < 10,
    ensures
        text@ == seq![digit(d as int)],
{
    proof {
        reveal_strlit("0");
        reveal_strlit("1");
        reveal_strlit("2");
        reveal_strlit("3");
        reveal_strlit("4");
        reveal_strlit("5");
        reveal_strlit("6");
        reveal_strlit("7");
        reveal_strlit("8");
        reveal_strlit("9");
    }
    let text = if d == 0 {
        "0"
    } else if d == 1 {
        "1"
    } else if d == 2 {
        "2"
    } else if d == 3 {
        "3"
    } else if d == 4 {
        "4"
    } else if d == 5 {
        "5"
    } else if d == 6 {
        "6"
    } else if d == 7 {
        "7"
    } else if d == 8 {
        "8"
    } else {
        "9"
    };
    assert(text@ =~= seq![digit(d as int)]);
    text
}

/// The number `n` in decimal digits, with their number.
fn decimal_text(n: u64) -> (r: (String, usize))
    ensures
        r.0@ == decimal(n as nat),
        r.1 == decimal(n as nat).len(),
        1 <= r.1 <= 20,
    decreases n,
{
    if n < 10 {
        (String::from_str(digit_text(n)), 1)
    } else {
        let (mut text, len) = decimal_text(n / 10);
        text.append(digit_text(n % 10));
        proof {
            lemma_decimal_len(n as nat);
        }
        (text, len + 1)
    }
}

/// Every number has a digit, a number below ten has one, and a number that
/// fits in 64 bits has twenty at most.
pub proof fn lemma_decimal_len(n: nat)
    ensures
        1 <= decimal(n).len(),
        n < 10 ==> decimal(n).len() == 1,
        n <= u64::MAX ==> decimal(n).len() <= 20,
{
    reveal_with_fuel(decimal, 21);
}

/// The number `n` in decimal digits, in at least `width` of them: zeros stand
/// in front of a number that has fewer.
pub fn zero_padded_text(n: u64, width: usize) -> (text: String)
    ensures
        text@ == zero_padded(n as nat, width as nat),
{
    let (digits, len) = decimal_text(n);
    let mut text = String::new();
    let mut zeros: usize = 0;
    while len < width && zeros < width - len
        invariant
            len < width ==> zeros <= width - len,
            len >= width ==> zeros == 0,
            text@ == Seq::new(zeros as nat, |j: int| '0'),
        decreases
                if len < width {
                    width - len - zeros
                } else {
                    0
                },
    {
        proof {
            reveal_strlit("0");
        }
        text.append("0");
        zeros += 1;
        assert(text@ =~= Seq::new(zeros as nat, |j: int| '0'));
    }
    text.append(digits.as_str());
    assert(text@ =~= zero_padded(n as nat, width as nat));
    text
}

impl Session {
    /// The status as it is shown: nothing while the game runs.
    pub open spec fn status(self) -> Seq<char> {
        if self.game_over {
            "Game over"@
        } else if !self.active {
            "Paused"@
        } else {
            ""@
        }
    }

    /// The status as it is shown: nothing while the game runs.
    pub fn status_text(&self) -> (text: &'static str)
        ensures
            text@ == self.status(),
    {
        if self.game_over {
            "Game over"
        } else if !self.active {
            "Paused"
        } else {
            ""
        }
    }

    /// The score as it is shown: in seven digits, or more where it has more.
    pub fn score_text(&self) -> (text: String)
        ensures
            text@ == zero_padded(self.score as nat, SCORE_DIGITS as nat),
    {
        zero_padded_text(self.score, SCORE_DIGITS)
    }

    /// The level as it is shown: in two digits.
    pub fn level_text(&self) -> (text: String)
        ensures
            text@ == zero_padded(self.level as nat, LEVEL_DIGITS as nat),
    {
        zero_padded_text(self.level as u64, LEVEL_DIGITS)
    }
}

impl GameView {
    /// The game with every move acknowledged: no cell is flagged as moved.
    pub open spec fn acknowledged(self) -> GameView {
        GameView { cells: all_acknowledged(self.cells), ..self }
    }
}

impl Game {
    /// The live cells of the grid as they are shown, in the order of their
    /// addresses: row by row from the top, each row from the left.
    pub fn live_cells(&self) -> (live: Vec<LiveCell>)
        requires
            self.wf(),
        ensures
            live@ == live_among(self@.cells, GRID_CELLS as int),
    {
        let mut live: Vec<LiveCell> = Vec::new();
        let mut y: i32 = 0;
        while y < FULL_HEIGHT
            invariant
                self.wf(),
                0 <= y <= FULL_HEIGHT,
                live@ == live_among(self@.cells, y * FIELD_WIDTH),
            decreases FULL_HEIGHT - y,
        {
            let mut x: i32 = 0;
            while x < FIELD_WIDTH
                invariant
                    self.wf(),
                    0 <= y < FULL_HEIGHT,
                    0 <= x <= FIELD_WIDTH,
                    live@ == live_among(self@.cells, y * FIELD_WIDTH + x),
                decreases FIELD_WIDTH - x,
            {
                let position = MatrixPosition { x, y };
                let ghost a = position.addr();
                assert(a % (FIELD_WIDTH as int) == x && a / (FIELD_WIDTH as int) == y);
                match self.grid.read(position) {
                    Ok(Cell::Current(b)) => {
                        live.push(
                            LiveCell {
                                position,
                                color: b.shape.color(),
                                settled: false,
                                moved: b.moved,
                            },
                        );
                    },
                    Ok(Cell::Locked(b)) => {
                        live.push(
                            LiveCell {
                                position,
                                color: b.shape.color(),
                                settled: true,
                                moved: b.moved,
                            },
                        );
                    },
                    _ => {},
                }
                x += 1;
            }
            y += 1;
        }
        live
    }

    /// Acknowledges every move, once what is shown has caught up with the
    /// grid: no cell is flagged as moved afterwards.
    pub fn acknowledge_moves(&mut self)
        requires
            old(self).wf(),
        ensures
            final(self).wf(),
            final(self)@ == old(self)@.acknowledged(),
    {
        self.grid.acknowledge_moves();
        proof {
            lemma_same_heap_in_buffer(old(self)@.cells, self@.cells);
        }
        assert(agrees(self@.cells, self@.piece)) by {
            assert forall|a: int| 0 <= a < self@.cells.len() implies crate::game::cell_agrees(
                #[trigger] self@.cells[a],
                a,
                self@.piece,
            ) by {
                assert(crate::game::cell_agrees(old(self)@.cells[a], a, old(self)@.piece));
            }
        }
    }
}

} // verus!
