//! Rotation by bounding-box class: which class a piece falls in, where each
//! of its cells goes, and which cells must be free for the turn.

use vstd::prelude::*;
use crate::fault::Fault;
use crate::game::{Game, GameView};
use crate::geometry::{in_bounds, MatrixPosition};
use crate::grid::{cell_at, Cell};
use crate::piece::{erased, placed, BoundingBox, Piece};

verus! {

/// The direction of a rotation.
#[derive(Clone, Copy, Debug, PartialEq, Eq, Structural)]
pub enum Rotation {
    Clockwise,
    CounterClockwise,
}

/// The class of a bounding box, by its width and height. Several pieces share
/// a class in a given orientation, and rotate alike.
#[derive(Clone, Copy, Debug, PartialEq, Eq, Structural)]
pub enum BoxClass {
    /// 2 by 2. A square never rotates.
    Square,
    /// 1 wide, 4 high.
    TallBar,
    /// 4 wide, 1 high.
    WideBar,
    /// 2 wide, 3 high.
    TallRect,
    /// 3 wide, 2 high.
    WideRect,
}

/// The class of a bounding box `width` wide and `height` high, if it has one.
pub open spec fn class_of(width: int, height: int) -> Option<BoxClass> {
    if width == 2 && height == 2 {
        Some(BoxClass::Square)
    } else if width == 1 && height == 4 {
        Some(BoxClass::TallBar)
    } else if width == 4 && height == 1 {
        Some(BoxClass::WideBar)
    } else if width == 2 && height == 3 {
        Some(BoxClass::TallRect)
    } else if width == 3 && height == 2 {
        Some(BoxClass::WideRect)
    } else {
        None
    }
}

/// By how many columns and rows the cell at column `rel_x`, row `rel_y` of a
/// bounding box of class `class` moves in a rotation. `None` for a square,
/// and for a place that the box of that class does not have.
#[verifier::opaque]
pub open spec fn rotation_delta(class: BoxClass, dir: Rotation, rel_x: int, rel_y: int) -> Option<
    (int, int),
> {
    match (class, dir) {
        (BoxClass::Square, _) => None,
        (BoxClass::TallBar, Rotation::Clockwise) => if rel_x != 0 {
            None
        } else if rel_y == 0 {
            Some((-1, 1))
        } else if rel_y == 1 {
            Some((0, 0))
        } else if rel_y == 2 {
            Some((1, -1))
        } else if rel_y == 3 {
            Some((2, -2))
        } else {
            None
        },
        (BoxClass::TallBar, Rotation::CounterClockwise) => if rel_x != 0 {
            None
        } else if rel_y == 0 {
            Some((1, 1))
        } else if rel_y == 1 {
            Some((0, 0))
        } else if rel_y == 2 {
            Some((-1, -1))
        } else if rel_y == 3 {
            Some((-2, -2))
        } else {
            None
        },
        (BoxClass::WideBar, Rotation::Clockwise) => if rel_y != 0 {
            None
        } else if rel_x == 0 {
            Some((1, -1))
        } else if rel_x == 1 {
            Some((0, 0))
        } else if rel_x == 2 {
            Some((-1, 1))
        } else if rel_x == 3 {
            Some((-2, 2))
        } else {
            None
        },
        (BoxClass::WideBar, Rotation::CounterClockwise) => if rel_y != 0 {
            None
        } else if rel_x == 0 {
            Some((2, 2))
        } else if rel_x == 1 {
            Some((1, 1))
        } else if rel_x == 2 {
            Some((0, 0))
        } else if rel_x == 3 {
            Some((-1, -1))
        } else {
            None
        },
        (BoxClass::TallRect, Rotation::CounterClockwise) => if rel_x == 0 && rel_y == 0 {
            Some((0, 1))
        } else if rel_x == 1 && rel_y == 0 {
            Some((-1, 0))
        } else if rel_x == 0 && rel_y == 1 {
            Some((1, 0))
        } else if rel_x == 1 && rel_y == 1 {
            Some((0, -1))
        } else if rel_x == 0 && rel_y == 2 {
            Some((2, -1))
        } else if rel_x == 1 && rel_y == 2 {
            Some((1, -2))
        } else {
            None
        },
        (BoxClass::TallRect, Rotation::Clockwise) => if rel_x == 0 && rel_y == 0 {
            Some((1, 0))
        } else if rel_x == 1 && rel_y == 0 {
            Some((0, 1))
        } else if rel_x == 0 && rel_y == 1 {
            Some((0, -1))
        } else if rel_x == 1 && rel_y == 1 {
            Some((-1, 0))
        } else if rel_x == 0 && rel_y == 2 {
            Some((-1, -2))
        } else if rel_x == 1 && rel_y == 2 {
            Some((-2, -1))
        } else {
            None
        },
        (BoxClass::WideRect, Rotation::Clockwise) => if rel_x == 0 && rel_y == 0 {
            Some((2, 0))
        } else if rel_x == 1 && rel_y == 0 {
            Some((1, 1))
        } else if rel_x == 2 && rel_y == 0 {
            Some((0, 2))
        } else if rel_x == 0 && rel_y == 1 {
            Some((1, -1))
        } else if rel_x == 1 && rel_y == 1 {
            Some((0, 0))
        } else if rel_x == 2 && rel_y == 1 {
            Some((-1, 1))
        } else {
            None
        },
        (BoxClass::WideRect, Rotation::CounterClockwise) => if rel_x == 0 && rel_y == 0 {
            Some((0, 2))
        } else if rel_x == 1 && rel_y == 0 {
            Some((-1, 1))
        } else if rel_x == 2 && rel_y == 0 {
            Some((-2, 0))
        } else if rel_x == 0 && rel_y == 1 {
            Some((1, 1))
        } else if rel_x == 1 && rel_y == 1 {
            Some((0, 0))
        } else if rel_x == 2 && rel_y == 1 {
            Some((-1, -1))
        } else {
            None
        },
    }
}

/// Where the block at `(x, y)` goes when the piece it belongs to, whose
/// bounding box has its top-left corner at `(min_x, min_y)` and is `size_x`
/// wide and `size_y` high, rotates in direction `dir`. `None` where the box
/// has no class, is a square, or has no such place.
pub open spec fn rotated_block(
    x: int,
    y: int,
    min_x: int,
    min_y: int,
    size_x: int,
    size_y: int,
    dir: Rotation,
) -> Option<(int, int)> {
    match class_of(size_x, size_y) {
        Some(class) => match rotation_delta(class, dir, x - min_x, y - min_y) {
            Some((dx, dy)) => Some((x + dx, y + dy)),
            None => None,
        },
        None => None,
    }
}

/// The rectangle of cells, both ends included, that a rotation needs in the
/// field and free of the heap.
pub struct ScanArea {
    pub min_x: int,
    pub max_x: int,
    pub min_y: int,
    pub max_y: int,
}

impl ScanArea {
    /// Whether the rectangle holds column `x`, row `y`.
    pub open spec fn holds(self, x: int, y: int) -> bool {
        self.min_x <= x <= self.max_x && self.min_y <= y <= self.max_y
    }

    /// Whether the whole rectangle lies in the field.
    pub open spec fn in_field(self) -> bool {
        in_bounds(self.min_x, self.min_y) && in_bounds(self.max_x, self.max_y)
    }
}

/// The cells to scan before a piece with bounding box `b`, of class `class`,
/// rotates in direction `dir`: the cells that the turned box reaches outside
/// the present one, or the whole turned box. For a bar that is the turned bar;
/// for a wide rectangle the row below it; for a tall one the turned rectangle.
/// A square scans nothing, and has no scan area.
#[verifier::opaque]
pub open spec fn scan_area(class: BoxClass, dir: Rotation, b: BoundingBox) -> Option<ScanArea> {
    match (class, dir) {
        (BoxClass::Square, _) => None,
        (BoxClass::TallBar, Rotation::Clockwise) => Some(
            ScanArea {
                min_x: b.min_x - 1,
                max_x: b.max_x + 2,
                min_y: b.min_y + 1,
                max_y: b.min_y + 1,
            },
        ),
        (BoxClass::TallBar, Rotation::CounterClockwise) => Some(
            ScanArea {
                min_x: b.min_x - 2,
                max_x: b.max_x + 1,
                min_y: b.min_y + 1,
                max_y: b.min_y + 1,
            },
        ),
        (BoxClass::WideBar, Rotation::Clockwise) => Some(
            ScanArea {
                min_x: b.min_x + 1,
                max_x: b.min_x + 1,
                min_y: b.min_y - 1,
                max_y: b.max_y + 2,
            },
        ),
        (BoxClass::WideBar, Rotation::CounterClockwise) => Some(
            ScanArea {
                min_x: b.min_x + 2,
                max_x: b.min_x + 2,
                min_y: b.min_y - 1,
                max_y: b.max_y + 2,
            },
        ),
        (BoxClass::TallRect, Rotation::Clockwise) => Some(
            ScanArea {
                min_x: b.min_x - 1,
                max_x: b.min_x + 1,
                min_y: b.min_y as int,
                max_y: b.min_y + 1,
            },
        ),
        (BoxClass::TallRect, Rotation::CounterClockwise) => Some(
            ScanArea {
                min_x: b.min_x as int,
                max_x: b.min_x + 2,
                min_y: b.min_y as int,
                max_y: b.min_y + 1,
            },
        ),
        (BoxClass::WideRect, Rotation::Clockwise) => Some(
            ScanArea {
                min_x: b.min_x + 1,
                max_x: b.min_x + 2,
                min_y: b.max_y + 1,
                max_y: b.max_y + 1,
            },
        ),
        (BoxClass::WideRect, Rotation::CounterClockwise) => Some(
            ScanArea {
                min_x: b.min_x as int,
                max_x: b.min_x + 1,
                min_y: b.max_y + 1,
                max_y: b.max_y + 1,
            },
        ),
    }
}

/// The class of a bounding box `size_x` wide and `size_y` high, if it has one.
pub fn classify(size_x: i32, size_y: i32) -> (class: Option<BoxClass>)
    ensures
        class == class_of(size_x as int, size_y as int),
{
    if size_x == 2 && size_y == 2 {
        Some(BoxClass::Square)
    } else if size_x == 1 && size_y == 4 {
        Some(BoxClass::TallBar)
    } else if size_x == 4 && size_y == 1 {
        Some(BoxClass::WideBar)
    } else if size_x == 2 && size_y == 3 {
        Some(BoxClass::TallRect)
    } else if size_x == 3 && size_y == 2 {
        Some(BoxClass::WideRect)
    } else {
        None
    }
}

/// Whether `n` is a number that a column or a row can be.
pub open spec fn fits(n: int) -> bool {
    i32::MIN <= n <= i32::MAX
}

/// Rotates a block within a bounding box: where the block at `(x, y)` goes
/// when its piece, whose bounding box has its top-left corner at
/// `(min_x, min_y)` and is `size_x` wide and `size_y` high, rotates in
/// direction `dir`. `None` where the box has no class, is a square, or has no
/// such place, and where the new position is no position at all.
pub fn rotate_block(
    x: i32,
    y: i32,
    min_x: i32,
    min_y: i32,
    size_x: i32,
    size_y: i32,
    dir: Rotation,
) -> (to: Option<MatrixPosition>)
    ensures
        to == match rotated_block(
            x as int,
            y as int,
            min_x as int,
            min_y as int,
            size_x as int,
            size_y as int,
            dir,
        ) {
            Some((new_x, new_y)) => if fits(new_x) && fits(new_y) {
                Some(MatrixPosition { x: new_x as i32, y: new_y as i32 })
            } else {
                None
            },
            None => None,
        },
{
    proof {
        reveal(rotation_delta);
    }
    let rel_x: i64 = x as i64 - min_x as i64;
    let rel_y: i64 = y as i64 - min_y as i64;
    let clockwise = match dir {
        Rotation::Clockwise => true,
        Rotation::CounterClockwise => false,
    };
    let delta: Option<(i64, i64)> = match (size_x, size_y, clockwise, rel_x, rel_y) {
        (1, 4, true, 0, 0) => Some((-1, 1)),
        (1, 4, true, 0, 1) => Some((0, 0)),
        (1, 4, true, 0, 2) => Some((1, -1)),
        (1, 4, true, 0, 3) => Some((2, -2)),
        (1, 4, false, 0, 0) => Some((1, 1)),
        (1, 4, false, 0, 1) => Some((0, 0)),
        (1, 4, false, 0, 2) => Some((-1, -1)),
        (1, 4, false, 0, 3) => Some((-2, -2)),
        (4, 1, true, 0, 0) => Some((1, -1)),
        (4, 1, true, 1, 0) => Some((0, 0)),
        (4, 1, true, 2, 0) => Some((-1, 1)),
        (4, 1, true, 3, 0) => Some((-2, 2)),
        (4, 1, false, 0, 0) => Some((2, 2)),
        (4, 1, false, 1, 0) => Some((1, 1)),
        (4, 1, false, 2, 0) => Some((0, 0)),
        (4, 1, false, 3, 0) => Some((-1, -1)),
        (2, 3, false, 0, 0) => Some((0, 1)),
        (2, 3, false, 1, 0) => Some((-1, 0)),
        (2, 3, false, 0, 1) => Some((1, 0)),
        (2, 3, false, 1, 1) => Some((0, -1)),
        (2, 3, false, 0, 2) => Some((2, -1)),
        (2, 3, false, 1, 2) => Some((1, -2)),
        (2, 3, true, 0, 0) => Some((1, 0)),
        (2, 3, true, 1, 0) => Some((0, 1)),
        (2, 3, true, 0, 1) => Some((0, -1)),
        (2, 3, true, 1, 1) => Some((-1, 0)),
        (2, 3, true, 0, 2) => Some((-1, -2)),
        (2, 3, true, 1, 2) => Some((-2, -1)),
        (3, 2, true, 0, 0) => Some((2, 0)),
        (3, 2, true, 1, 0) => Some((1, 1)),
        (3, 2, true, 2, 0) => Some((0, 2)),
        (3, 2, true, 0, 1) => Some((1, -1)),
        (3, 2, true, 1, 1) => Some((0, 0)),
        (3, 2, true, 2, 1) => Some((-1, 1)),
        (3, 2, false, 0, 0) => Some((0, 2)),
        (3, 2, false, 1, 0) => Some((-1, 1)),
        (3, 2, false, 2, 0) => Some((-2, 0)),
        (3, 2, false, 0, 1) => Some((1, 1)),
        (3, 2, false, 1, 1) => Some((0, 0)),
        (3, 2, false, 2, 1) => Some((-1, -1)),
        _ => None,
    };
    match delta {
        Some((dx, dy)) => {
            let new_x: i64 = x as i64 + dx;
            let new_y: i64 = y as i64 + dy;
            if new_x < i32::MIN as i64 || new_x > i32::MAX as i64 || new_y < i32::MIN as i64
                || new_y > i32::MAX as i64 {
                None
            } else {
                Some(MatrixPosition { x: new_x as i32, y: new_y as i32 })
            }
        },
        None => None,
    }
}

impl Piece {
    /// The class of the piece's bounding box, if it has one.
    pub open spec fn class(self) -> Option<BoxClass> {
        class_of(self.bounds().width(), self.bounds().height())
    }

    /// Where cell `i` of the piece goes in a rotation in direction `dir`; the
    /// cell's own position where the rotation moves nothing.
    pub open spec fn turned_cell(self, i: int, dir: Rotation) -> MatrixPosition {
        let b = self.bounds();
        match rotated_block(
            self.cells[i].x as int,
            self.cells[i].y as int,
            b.min_x as int,
            b.min_y as int,
            b.width(),
            b.height(),
            dir,
        ) {
            Some((x, y)) => MatrixPosition { x: x as i32, y: y as i32 },
            None => self.cells[i],
        }
    }

    /// The piece with every cell where a rotation in direction `dir` takes it.
    pub open spec fn turned(self, dir: Rotation) -> Piece {
        Piece {
            shape: self.shape,
            cells: [
                self.turned_cell(0, dir),
                self.turned_cell(1, dir),
                self.turned_cell(2, dir),
                self.turned_cell(3, dir),
            ],
        }
    }
}

impl GameView {
    /// Whether the rectangle `area` lies in the field and holds no block of
    /// the heap.
    pub open spec fn scan_clear(self, area: ScanArea) -> bool {
        area.in_field() && forall|x: int, y: int|
            area.holds(x, y) ==> !(#[trigger] cell_at(self.cells, x, y) is Locked)
    }

    /// How a rotation in direction `dir` ends. With no piece, with a square,
    /// and where the scan area leaves the field or meets the heap, it is
    /// rejected: `Ok(false)`. A piece whose bounding box has no class is a
    /// fault. Otherwise the rotation is applied: `Ok(true)`.
    pub open spec fn rotation_outcome(self, dir: Rotation) -> Result<bool, Fault> {
        match self.piece {
            None => Ok(false),
            Some(p) => match p.class() {
                None => Err(Fault::UnknownFootprint),
                Some(class) => match scan_area(class, dir, p.bounds()) {
                    None => Ok(false),
                    Some(area) => Ok(self.scan_clear(area)),
                },
            },
        }
    }

    /// The game after a rotation in direction `dir` was asked for. Where it
    /// is applied, the four cells of the piece are emptied, and the four cells
    /// it turns to are marked as the active piece's and flagged as moved.
    /// Where it is not, nothing changes.
    pub open spec fn rotated(self, dir: Rotation) -> GameView {
        if self.rotation_outcome(dir) == Ok::<bool, Fault>(true) {
            let p = self.piece->Some_0;
            GameView {
                cells: placed(erased(self.cells, p), p.turned(dir), true),
                piece: Some(p.turned(dir)),
                ..self
            }
        } else {
            self
        }
    }
}

/// A block in a bounding box of a class that rotates has a place to go, and
/// where the scan area lies in the field, so does that place.
pub proof fn lemma_block_turns_in_field(b: BoundingBox, dir: Rotation, x: int, y: int)
    requires
        in_bounds(b.min_x as int, b.min_y as int),
        in_bounds(b.max_x as int, b.max_y as int),
        b.min_x <= x <= b.max_x,
        b.min_y <= y <= b.max_y,
        class_of(b.width(), b.height()) matches Some(class) && scan_area(class, dir, b) matches Some(
            area,
        ) && area.in_field(),
    ensures
        rotated_block(x, y, b.min_x as int, b.min_y as int, b.width(), b.height(), dir) matches Some(
            (new_x, new_y),
        ) && in_bounds(new_x, new_y),
{
    reveal(rotation_delta);
    reveal(scan_area);
}

/// Two blocks in a bounding box of a class that rotates do not go to the same
/// place.
pub proof fn lemma_blocks_turn_apart(
    b: BoundingBox,
    dir: Rotation,
    x1: int,
    y1: int,
    x2: int,
    y2: int,
)
    requires
        b.min_x <= x1 <= b.max_x,
        b.min_y <= y1 <= b.max_y,
        b.min_x <= x2 <= b.max_x,
        b.min_y <= y2 <= b.max_y,
        x1 != x2 || y1 != y2,
        class_of(b.width(), b.height()) matches Some(class) && class != BoxClass::Square,
    ensures
        rotated_block(x1, y1, b.min_x as int, b.min_y as int, b.width(), b.height(), dir)
            is Some,
        rotated_block(x2, y2, b.min_x as int, b.min_y as int, b.width(), b.height(), dir)
            is Some,
        rotated_block(x1, y1, b.min_x as int, b.min_y as int, b.width(), b.height(), dir)
            != rotated_block(x2, y2, b.min_x as int, b.min_y as int, b.width(), b.height(), dir),
{
    reveal(rotation_delta);
}

/// A piece whose scan area lies in the field turns to cells of the field, no
/// two of them the same.
pub proof fn lemma_turned_on_grid(p: Piece, dir: Rotation)
    requires
        p.on_grid(),
        p.class() matches Some(class) && scan_area(class, dir, p.bounds()) matches Some(area)
            && area.in_field(),
    ensures
        p.turned(dir).on_grid(),
{
    let b = p.bounds();
    let c = p.cells;
    assert(class_of(b.width(), b.height()) != Some(BoxClass::Square)) by {
        reveal(scan_area);
    }
    lemma_block_turns_in_field(b, dir, c[0].x as int, c[0].y as int);
    lemma_block_turns_in_field(b, dir, c[1].x as int, c[1].y as int);
    lemma_block_turns_in_field(b, dir, c[2].x as int, c[2].y as int);
    lemma_block_turns_in_field(b, dir, c[3].x as int, c[3].y as int);
    lemma_blocks_turn_apart(b, dir, c[0].x as int, c[0].y as int, c[1].x as int, c[1].y as int);
    lemma_blocks_turn_apart(b, dir, c[0].x as int, c[0].y as int, c[2].x as int, c[2].y as int);
    lemma_blocks_turn_apart(b, dir, c[0].x as int, c[0].y as int, c[3].x as int, c[3].y as int);
    lemma_blocks_turn_apart(b, dir, c[1].x as int, c[1].y as int, c[2].x as int, c[2].y as int);
    lemma_blocks_turn_apart(b, dir, c[1].x as int, c[1].y as int, c[3].x as int, c[3].y as int);
    lemma_blocks_turn_apart(b, dir, c[2].x as int, c[2].y as int, c[3].x as int, c[3].y as int);
}

/// The cells to scan before a piece with bounding box `b`, of class `class`,
/// rotates in direction `dir`; `None` for a square.
pub fn scan_rectangle(class: BoxClass, dir: Rotation, b: &BoundingBox) -> (r: Option<BoundingBox>)
    requires
        in_bounds(b.min_x as int, b.min_y as int),
        in_bounds(b.max_x as int, b.max_y as int),
        b.min_x <= b.max_x,
        b.min_y <= b.max_y,
    ensures
        match scan_area(class, dir, *b) {
            Some(area) => r matches Some(rect) && rect.min_x == area.min_x && rect.max_x
                == area.max_x && rect.min_y == area.min_y && rect.max_y == area.max_y
                && rect.min_x <= rect.max_x && rect.min_y <= rect.max_y,
            None => r is None,
        },
{
    proof {
        reveal(scan_area);
    }
    match (class, dir) {
        (BoxClass::Square, _) => None,
        (BoxClass::TallBar, Rotation::Clockwise) => Some(
            BoundingBox {
                min_x: b.min_x - 1,
                max_x: b.max_x + 2,
                min_y: b.min_y + 1,
                max_y: b.min_y + 1,
            },
        ),
        (BoxClass::TallBar, Rotation::CounterClockwise) => Some(
            BoundingBox {
                min_x: b.min_x - 2,
                max_x: b.max_x + 1,
                min_y: b.min_y + 1,
                max_y: b.min_y + 1,
            },
        ),
        (BoxClass::WideBar, Rotation::Clockwise) => Some(
            BoundingBox {
                min_x: b.min_x + 1,
                max_x: b.min_x + 1,
                min_y: b.min_y - 1,
                max_y: b.max_y + 2,
            },
        ),
        (BoxClass::WideBar, Rotation::CounterClockwise) => Some(
            BoundingBox {
                min_x: b.min_x + 2,
                max_x: b.min_x + 2,
                min_y: b.min_y - 1,
                max_y: b.max_y + 2,
            },
        ),
        (BoxClass::TallRect, Rotation::Clockwise) => Some(
            BoundingBox {
                min_x: b.min_x - 1,
                max_x: b.min_x + 1,
                min_y: b.min_y,
                max_y: b.min_y + 1,
            },
        ),
        (BoxClass::TallRect, Rotation::CounterClockwise) => Some(
            BoundingBox {
                min_x: b.min_x,
                max_x: b.min_x + 2,
                min_y: b.min_y,
                max_y: b.min_y + 1,
            },
        ),
        (BoxClass::WideRect, Rotation::Clockwise) => Some(
            BoundingBox {
                min_x: b.min_x + 1,
                max_x: b.min_x + 2,
                min_y: b.max_y + 1,
                max_y: b.max_y + 1,
            },
        ),
        (BoxClass::WideRect, Rotation::CounterClockwise) => Some(
            BoundingBox {
                min_x: b.min_x,
                max_x: b.min_x + 1,
                min_y: b.max_y + 1,
                max_y: b.max_y + 1,
            },
        ),
    }
}

impl Game {
    /// Whether the rectangle `rect` of the field holds no block of the heap.
    fn scan(&self, rect: &BoundingBox) -> (clear: bool)
        requires
            self.wf(),
            in_bounds(rect.min_x as int, rect.min_y as int),
            in_bounds(rect.max_x as int, rect.max_y as int),
            rect.min_x <= rect.max_x,
            rect.min_y <= rect.max_y,
        ensures
            clear == forall|x: int, y: int|
                rect.min_x <= x <= rect.max_x && rect.min_y <= y <= rect.max_y ==> !(
                #[trigger] cell_at(self@.cells, x, y) is Locked),
    {
        let mut x: i32 = rect.min_x;
        while x <= rect.max_x
            invariant
                self.wf(),
                in_bounds(rect.min_x as int, rect.min_y as int),
                in_bounds(rect.max_x as int, rect.max_y as int),
                rect.min_y <= rect.max_y,
                rect.min_x <= x,
                x <= rect.max_x + 1,
                forall|i: int, j: int|
                    rect.min_x <= i < x && rect.min_y <= j <= rect.max_y ==> !(#[trigger] cell_at(
                        self@.cells,
                        i,
                        j,
                    ) is Locked),
            decreases rect.max_x + 1 - x,
        {
            let mut y: i32 = rect.min_y;
            while y <= rect.max_y
                invariant
                    self.wf(),
                    in_bounds(rect.min_x as int, rect.min_y as int),
                    in_bounds(rect.max_x as int, rect.max_y as int),
                    rect.min_x <= x <= rect.max_x,
                    rect.min_y <= y,
                    y <= rect.max_y + 1,
                    forall|i: int, j: int|
                        rect.min_x <= i < x && rect.min_y <= j <= rect.max_y ==> !(
                        #[trigger] cell_at(self@.cells, i, j) is Locked),
                    forall|j: int|
                        rect.min_y <= j < y ==> !(#[trigger] cell_at(self@.cells, x as int, j)
                            is Locked),
                decreases rect.max_y + 1 - y,
            {
                let here = self.grid.read(MatrixPosition { x, y });
                match here {
                    Ok(Cell::Locked(_)) => {
                        assert(cell_at(self@.cells, x as int, y as int) is Locked);
                        return false;
                    },
                    _ => {},
                }
                y += 1;
            }
            x += 1;
        }
        true
    }

    /// Rotates the active piece in direction `dir`, all four cells or none.
    /// The bounding box of the piece gives its class, the class and the
    /// direction the cells to scan. A square is rejected. So is a rotation
    /// whose scan area leaves the field or holds a block of the heap. The
    /// game is then as it was, and `Ok(false)` is returned. Otherwise each
    /// cell goes where its place in the box sends it, and `Ok(true)` is
    /// returned. A piece whose bounding box has no class is a fault, and
    /// stays as it is.
    pub fn rotate(&mut self, dir: Rotation) -> (r: Result<bool, Fault>)
        requires
            old(self).wf(),
        ensures
            final(self).wf(),
            final(self)@ == old(self)@.rotated(dir),
            r == old(self)@.rotation_outcome(dir),
    {
        let p = match self.piece {
            None => {
                return Ok(false);
            },
            Some(p) => p,
        };
        let b = p.bounding_box();
        let size_x = 1 + b.max_x - b.min_x;
        let size_y = 1 + b.max_y - b.min_y;
        let class = match classify(size_x, size_y) {
            None => {
                return Err(Fault::UnknownFootprint);
            },
            Some(class) => class,
        };
        let rect = match scan_rectangle(class, dir, &b) {
            None => {
                return Ok(false);
            },
            Some(rect) => rect,
        };
        let first = MatrixPosition { x: rect.min_x, y: rect.min_y };
        let last = MatrixPosition { x: rect.max_x, y: rect.max_y };
        if !first.is_in_field() || !last.is_in_field() {
            return Ok(false);
        }
        if !self.scan(&rect) {
            return Ok(false);
        }
        proof {
            lemma_turned_on_grid(p, dir);
            lemma_block_turns_in_field(b, dir, p.cells[0].x as int, p.cells[0].y as int);
            lemma_block_turns_in_field(b, dir, p.cells[1].x as int, p.cells[1].y as int);
            lemma_block_turns_in_field(b, dir, p.cells[2].x as int, p.cells[2].y as int);
            lemma_block_turns_in_field(b, dir, p.cells[3].x as int, p.cells[3].y as int);
        }
        let c0 = rotate_block(p.cells[0].x, p.cells[0].y, b.min_x, b.min_y, size_x, size_y, dir);
        let c1 = rotate_block(p.cells[1].x, p.cells[1].y, b.min_x, b.min_y, size_x, size_y, dir);
        let c2 = rotate_block(p.cells[2].x, p.cells[2].y, b.min_x, b.min_y, size_x, size_y, dir);
        let c3 = rotate_block(p.cells[3].x, p.cells[3].y, b.min_x, b.min_y, size_x, size_y, dir);
        match (c0, c1, c2, c3) {
            (Some(c0), Some(c1), Some(c2), Some(c3)) => {
                let turned = Piece { shape: p.shape, cells: [c0, c1, c2, c3] };
                assert(turned.cells@ =~= p.turned(dir).cells@);
                assert(turned.cells == p.turned(dir).cells);
                self.replace_piece(&p, turned, true);
                Ok(true)
            },
            _ => {
                assert(false);
                Err(Fault::UnknownFootprint)
            },
        }
    }
}

} // verus!
