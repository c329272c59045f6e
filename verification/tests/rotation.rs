use tetris::catalog::TetrominoType;
use tetris::fault::Fault;
use tetris::game::Game;
use tetris::geometry::{MatrixPosition, FIELD_WIDTH, FULL_HEIGHT};
use tetris::grid::{Block, Cell, Grid};
use tetris::piece::{BoundingBox, Piece};
use tetris::rotation::{classify, rotate_block, scan_rectangle, BoxClass, Rotation};
use tetris::session::Session;
use tetris::timer::{DropTimer, FallSchedule};

const CW: Rotation = Rotation::Clockwise;
const CCW: Rotation = Rotation::CounterClockwise;

fn at(x: i32, y: i32) -> MatrixPosition {
    MatrixPosition { x, y }
}

fn playing() -> Session {
    Session { awaiting_spawn: false, ..Session::new() }
}

fn game_with(shape: TetrominoType, cells: [MatrixPosition; 4], heap: &[(i32, i32)]) -> Game {
    let mut grid = Grid::new();
    for &(x, y) in heap {
        grid.mark(at(x, y), Cell::Locked(Block { shape: TetrominoType::O, moved: false })).unwrap();
    }
    for c in cells.iter() {
        grid.mark(*c, Cell::Current(Block { shape, moved: false })).unwrap();
    }
    Game::assemble(
        grid,
        Some(Piece { shape, cells }),
        playing(),
        DropTimer::new(1000),
        FallSchedule::uniform(1000),
    )
    .unwrap()
}

fn cells_of(game: &Game) -> [MatrixPosition; 4] {
    game.piece().unwrap().cells
}

fn count_current(game: &Game) -> usize {
    let mut n = 0;
    for y in 0..FULL_HEIGHT {
        for x in 0..FIELD_WIDTH {
            if game.grid().read(at(x, y)).unwrap().is_current() {
                n += 1;
            }
        }
    }
    n
}

fn turn(x: i32, y: i32, size: (i32, i32), dir: Rotation, rel: (i32, i32)) -> Option<(i32, i32)> {
    // a box with its top-left corner at (x, y); the block at the place `rel` in it
    rotate_block(x + rel.0, y + rel.1, x, y, size.0, size.1, dir).map(|p| (p.x - x - rel.0, p.y - y - rel.1))
}

#[test]
fn classify_knows_five_boxes() {
    assert_eq!(classify(2, 2), Some(BoxClass::Square));
    assert_eq!(classify(1, 4), Some(BoxClass::TallBar));
    assert_eq!(classify(4, 1), Some(BoxClass::WideBar));
    assert_eq!(classify(2, 3), Some(BoxClass::TallRect));
    assert_eq!(classify(3, 2), Some(BoxClass::WideRect));
    assert_eq!(classify(3, 3), None);
    assert_eq!(classify(1, 1), None);
    assert_eq!(classify(4, 4), None);
    assert_eq!(classify(0, 0), None);
    assert_eq!(classify(-2, -2), None);
}

#[test]
fn tall_bar_deltas() {
    assert_eq!(turn(5, 5, (1, 4), CW, (0, 0)), Some((-1, 1)));
    assert_eq!(turn(5, 5, (1, 4), CW, (0, 1)), Some((0, 0)));
    assert_eq!(turn(5, 5, (1, 4), CW, (0, 2)), Some((1, -1)));
    assert_eq!(turn(5, 5, (1, 4), CW, (0, 3)), Some((2, -2)));
    assert_eq!(turn(5, 5, (1, 4), CCW, (0, 0)), Some((1, 1)));
    assert_eq!(turn(5, 5, (1, 4), CCW, (0, 1)), Some((0, 0)));
    assert_eq!(turn(5, 5, (1, 4), CCW, (0, 2)), Some((-1, -1)));
    assert_eq!(turn(5, 5, (1, 4), CCW, (0, 3)), Some((-2, -2)));
}

#[test]
fn wide_bar_deltas() {
    assert_eq!(turn(3, 9, (4, 1), CW, (0, 0)), Some((1, -1)));
    assert_eq!(turn(3, 9, (4, 1), CW, (1, 0)), Some((0, 0)));
    assert_eq!(turn(3, 9, (4, 1), CW, (2, 0)), Some((-1, 1)));
    assert_eq!(turn(3, 9, (4, 1), CW, (3, 0)), Some((-2, 2)));
    assert_eq!(turn(3, 9, (4, 1), CCW, (0, 0)), Some((2, 2)));
    assert_eq!(turn(3, 9, (4, 1), CCW, (1, 0)), Some((1, 1)));
    assert_eq!(turn(3, 9, (4, 1), CCW, (2, 0)), Some((0, 0)));
    assert_eq!(turn(3, 9, (4, 1), CCW, (3, 0)), Some((-1, -1)));
}

#[test]
fn tall_rect_deltas() {
    assert_eq!(turn(4, 6, (2, 3), CCW, (0, 0)), Some((0, 1)));
    assert_eq!(turn(4, 6, (2, 3), CCW, (1, 0)), Some((-1, 0)));
    assert_eq!(turn(4, 6, (2, 3), CCW, (0, 1)), Some((1, 0)));
    assert_eq!(turn(4, 6, (2, 3), CCW, (1, 1)), Some((0, -1)));
    assert_eq!(turn(4, 6, (2, 3), CCW, (0, 2)), Some((2, -1)));
    assert_eq!(turn(4, 6, (2, 3), CCW, (1, 2)), Some((1, -2)));
    assert_eq!(turn(4, 6, (2, 3), CW, (0, 0)), Some((1, 0)));
    assert_eq!(turn(4, 6, (2, 3), CW, (1, 0)), Some((0, 1)));
    assert_eq!(turn(4, 6, (2, 3), CW, (0, 1)), Some((0, -1)));
    assert_eq!(turn(4, 6, (2, 3), CW, (1, 1)), Some((-1, 0)));
    assert_eq!(turn(4, 6, (2, 3), CW, (0, 2)), Some((-1, -2)));
    assert_eq!(turn(4, 6, (2, 3), CW, (1, 2)), Some((-2, -1)));
}

#[test]
fn wide_rect_deltas() {
    assert_eq!(turn(2, 8, (3, 2), CW, (0, 0)), Some((2, 0)));
    assert_eq!(turn(2, 8, (3, 2), CW, (1, 0)), Some((1, 1)));
    assert_eq!(turn(2, 8, (3, 2), CW, (2, 0)), Some((0, 2)));
    assert_eq!(turn(2, 8, (3, 2), CW, (0, 1)), Some((1, -1)));
    assert_eq!(turn(2, 8, (3, 2), CW, (1, 1)), Some((0, 0)));
    assert_eq!(turn(2, 8, (3, 2), CW, (2, 1)), Some((-1, 1)));
    assert_eq!(turn(2, 8, (3, 2), CCW, (0, 0)), Some((0, 2)));
    assert_eq!(turn(2, 8, (3, 2), CCW, (1, 0)), Some((-1, 1)));
    assert_eq!(turn(2, 8, (3, 2), CCW, (2, 0)), Some((-2, 0)));
    assert_eq!(turn(2, 8, (3, 2), CCW, (0, 1)), Some((1, 1)));
    assert_eq!(turn(2, 8, (3, 2), CCW, (1, 1)), Some((0, 0)));
    assert_eq!(turn(2, 8, (3, 2), CCW, (2, 1)), Some((-1, -1)));
}

#[test]
fn rotate_block_knows_no_place_outside_the_box_and_no_square() {
    assert_eq!(rotate_block(5, 5, 5, 5, 2, 2, CW), None);
    assert_eq!(rotate_block(6, 6, 5, 5, 2, 2, CCW), None);
    assert_eq!(rotate_block(6, 5, 5, 5, 1, 4, CW), None);
    assert_eq!(rotate_block(5, 9, 5, 5, 1, 4, CW), None);
    assert_eq!(rotate_block(5, 4, 5, 5, 1, 4, CCW), None);
    assert_eq!(rotate_block(5, 6, 5, 5, 4, 1, CW), None);
    assert_eq!(rotate_block(7, 5, 5, 5, 2, 3, CW), None);
    assert_eq!(rotate_block(5, 7, 5, 5, 3, 2, CCW), None);
    assert_eq!(rotate_block(5, 5, 5, 5, 3, 3, CW), None);
    assert_eq!(rotate_block(5, 5, 5, 5, 0, 0, CW), None);
}

#[test]
fn rotate_block_at_the_ends_of_the_number_range() {
    // the new position would not be a position at all
    assert_eq!(rotate_block(i32::MAX, 0, i32::MAX, -3, 1, 4, CW), None);
    assert_eq!(rotate_block(i32::MIN, 0, i32::MIN, 0, 1, 4, CW), None);
    // the place in the box is computed without wrapping
    assert_eq!(rotate_block(i32::MAX, 0, i32::MIN, 0, 4, 1, CW), None);
    assert_eq!(rotate_block(i32::MAX - 2, 1, i32::MAX - 2, 0, 1, 4, CW), Some(at(i32::MAX - 2, 1)));
}

#[test]
fn scan_rectangles_of_the_bars() {
    let tall = BoundingBox { min_x: 4, max_x: 4, min_y: 6, max_y: 9 };
    assert_eq!(
        scan_rectangle(BoxClass::TallBar, CW, &tall),
        Some(BoundingBox { min_x: 3, max_x: 6, min_y: 7, max_y: 7 })
    );
    assert_eq!(
        scan_rectangle(BoxClass::TallBar, CCW, &tall),
        Some(BoundingBox { min_x: 2, max_x: 5, min_y: 7, max_y: 7 })
    );
    let wide = BoundingBox { min_x: 3, max_x: 6, min_y: 7, max_y: 7 };
    assert_eq!(
        scan_rectangle(BoxClass::WideBar, CW, &wide),
        Some(BoundingBox { min_x: 4, max_x: 4, min_y: 6, max_y: 9 })
    );
    assert_eq!(
        scan_rectangle(BoxClass::WideBar, CCW, &wide),
        Some(BoundingBox { min_x: 5, max_x: 5, min_y: 6, max_y: 9 })
    );
}

#[test]
fn scan_rectangles_of_the_rectangles() {
    let wide = BoundingBox { min_x: 4, max_x: 6, min_y: 2, max_y: 3 };
    assert_eq!(
        scan_rectangle(BoxClass::WideRect, CW, &wide),
        Some(BoundingBox { min_x: 5, max_x: 6, min_y: 4, max_y: 4 })
    );
    assert_eq!(
        scan_rectangle(BoxClass::WideRect, CCW, &wide),
        Some(BoundingBox { min_x: 4, max_x: 5, min_y: 4, max_y: 4 })
    );
    let tall = BoundingBox { min_x: 4, max_x: 5, min_y: 6, max_y: 8 };
    assert_eq!(
        scan_rectangle(BoxClass::TallRect, CW, &tall),
        Some(BoundingBox { min_x: 3, max_x: 5, min_y: 6, max_y: 7 })
    );
    assert_eq!(
        scan_rectangle(BoxClass::TallRect, CCW, &tall),
        Some(BoundingBox { min_x: 4, max_x: 6, min_y: 6, max_y: 7 })
    );
    let square = BoundingBox { min_x: 4, max_x: 5, min_y: 6, max_y: 7 };
    assert_eq!(scan_rectangle(BoxClass::Square, CW, &square), None);
    assert_eq!(scan_rectangle(BoxClass::Square, CCW, &square), None);
}

#[test]
fn bounding_box_of_a_piece() {
    let p = Piece { shape: TetrominoType::T, cells: [at(4, 3), at(5, 3), at(6, 3), at(5, 2)] };
    assert_eq!(p.bounding_box(), BoundingBox { min_x: 4, max_x: 6, min_y: 2, max_y: 3 });
    let q = Piece { shape: TetrominoType::I, cells: [at(2, 9), at(2, 7), at(2, 8), at(2, 6)] };
    assert_eq!(q.bounding_box(), BoundingBox { min_x: 2, max_x: 2, min_y: 6, max_y: 9 });
}

#[test]
fn t_piece_turns_clockwise_in_free_space() {
    let mut game = game_with(TetrominoType::T, [at(4, 3), at(5, 3), at(6, 3), at(5, 2)], &[]);
    assert_eq!(game.rotate(CW), Ok(true));
    assert_eq!(cells_of(&game), [at(5, 2), at(5, 3), at(5, 4), at(6, 3)]);
    for c in cells_of(&game).iter() {
        assert_eq!(
            game.grid().read(*c),
            Ok(Cell::Current(Block { shape: TetrominoType::T, moved: true }))
        );
    }
    assert_eq!(game.grid().read(at(4, 3)), Ok(Cell::Empty));
    assert_eq!(count_current(&game), 4);
}

#[test]
fn t_piece_turns_counter_clockwise_in_free_space() {
    let mut game = game_with(TetrominoType::T, [at(4, 3), at(5, 3), at(6, 3), at(5, 2)], &[]);
    assert_eq!(game.rotate(CCW), Ok(true));
    assert_eq!(cells_of(&game), [at(5, 4), at(5, 3), at(5, 2), at(4, 3)]);
    assert_eq!(game.grid().read(at(6, 3)), Ok(Cell::Empty));
    assert_eq!(count_current(&game), 4);
}

#[test]
fn four_quarter_turns_bring_a_t_piece_back() {
    let start = [at(4, 10), at(5, 10), at(6, 10), at(5, 9)];
    let mut game = game_with(TetrominoType::T, start, &[]);
    for _ in 0..4 {
        assert_eq!(game.rotate(CW), Ok(true));
        assert_eq!(count_current(&game), 4);
    }
    assert_eq!(cells_of(&game), start);
}

#[test]
fn rotation_is_rejected_when_the_scan_area_meets_the_heap() {
    let start = [at(4, 3), at(5, 3), at(6, 3), at(5, 2)];
    let mut game = game_with(TetrominoType::T, start, &[(6, 4)]);
    assert_eq!(game.rotate(CW), Ok(false));
    assert_eq!(cells_of(&game), start);
    for c in start.iter() {
        assert_eq!(
            game.grid().read(*c),
            Ok(Cell::Current(Block { shape: TetrominoType::T, moved: false }))
        );
    }
    // the other direction scans columns 4 and 5 of row 4, which are free
    assert_eq!(game.rotate(CCW), Ok(true));
}

#[test]
fn rotation_is_rejected_when_the_scan_area_leaves_the_field() {
    // an upright bar against the left wall
    let start = [at(0, 4), at(0, 5), at(0, 6), at(0, 7)];
    let mut game = game_with(TetrominoType::I, start, &[]);
    assert_eq!(game.rotate(CW), Ok(false));
    assert_eq!(cells_of(&game), start);
    assert_eq!(game.rotate(CCW), Ok(false));
    assert_eq!(cells_of(&game), start);
    // against the right wall
    let start = [at(9, 4), at(9, 5), at(9, 6), at(9, 7)];
    let mut game = game_with(TetrominoType::I, start, &[]);
    assert_eq!(game.rotate(CW), Ok(false));
    assert_eq!(game.rotate(CCW), Ok(false));
    assert_eq!(cells_of(&game), start);
    // one column off the right wall there is room to turn counter-clockwise only
    let start = [at(8, 4), at(8, 5), at(8, 6), at(8, 7)];
    let mut game = game_with(TetrominoType::I, start, &[]);
    assert_eq!(game.rotate(CW), Ok(false));
    assert_eq!(cells_of(&game), start);
    assert_eq!(game.rotate(CCW), Ok(true));
    assert_eq!(cells_of(&game), [at(9, 5), at(8, 5), at(7, 5), at(6, 5)]);
}

#[test]
fn a_lying_bar_on_the_floor_cannot_stand_up() {
    let start = [at(3, 23), at(4, 23), at(5, 23), at(6, 23)];
    let mut game = game_with(TetrominoType::I, start, &[]);
    assert_eq!(game.rotate(CW), Ok(false));
    assert_eq!(game.rotate(CCW), Ok(false));
    assert_eq!(cells_of(&game), start);
}

#[test]
fn a_lying_bar_in_the_top_row_cannot_stand_up() {
    let start = [at(3, 0), at(4, 0), at(5, 0), at(6, 0)];
    let mut game = game_with(TetrominoType::I, start, &[]);
    assert_eq!(game.rotate(CW), Ok(false));
    assert_eq!(game.rotate(CCW), Ok(false));
    assert_eq!(cells_of(&game), start);
    assert_eq!(count_current(&game), 4);
}

#[test]
fn a_lying_bar_stands_up_where_the_heap_leaves_room() {
    let start = [at(3, 10), at(4, 10), at(5, 10), at(6, 10)];
    // a block where the bar would stand after a clockwise turn
    let mut game = game_with(TetrominoType::I, start, &[(4, 9)]);
    assert_eq!(game.rotate(CW), Ok(false));
    assert_eq!(cells_of(&game), start);
    assert_eq!(game.rotate(CCW), Ok(true));
    assert_eq!(cells_of(&game), [at(5, 12), at(5, 11), at(5, 10), at(5, 9)]);
    assert_eq!(game.grid().read(at(4, 9)).unwrap().is_locked(), true);
}

#[test]
fn a_square_never_rotates() {
    let start = [at(4, 2), at(4, 3), at(5, 2), at(5, 3)];
    let mut game = game_with(TetrominoType::O, start, &[]);
    assert_eq!(game.rotate(CW), Ok(false));
    assert_eq!(cells_of(&game), start);
    assert_eq!(game.rotate(CCW), Ok(false));
    assert_eq!(cells_of(&game), start);
    for dir in [CW, CW, CCW, CW, CCW, CCW, CCW] {
        assert_eq!(game.rotate(dir), Ok(false));
        assert_eq!(cells_of(&game), start);
    }
    for c in start.iter() {
        assert_eq!(
            game.grid().read(*c),
            Ok(Cell::Current(Block { shape: TetrominoType::O, moved: false }))
        );
    }
}

#[test]
fn a_bar_turned_twice_the_same_way_is_back() {
    let start = [at(4, 4), at(4, 5), at(4, 6), at(4, 7)];
    let mut game = game_with(TetrominoType::I, start, &[]);
    assert_eq!(game.rotate(CW), Ok(true));
    assert_eq!(cells_of(&game), [at(3, 5), at(4, 5), at(5, 5), at(6, 5)]);
    assert_eq!(game.rotate(CW), Ok(true));
    assert_eq!(cells_of(&game), start);
    assert_eq!(game.rotate(CCW), Ok(true));
    assert_eq!(cells_of(&game), [at(5, 5), at(4, 5), at(3, 5), at(2, 5)]);
    assert_eq!(game.rotate(CCW), Ok(true));
    assert_eq!(cells_of(&game), start);
}

#[test]
fn a_bar_turned_there_and_back_stands_one_column_over() {
    let start = [at(4, 4), at(4, 5), at(4, 6), at(4, 7)];
    let mut game = game_with(TetrominoType::I, start, &[]);
    assert_eq!(game.rotate(CW), Ok(true));
    assert_eq!(game.rotate(CCW), Ok(true));
    assert_eq!(cells_of(&game), [at(5, 7), at(5, 6), at(5, 5), at(5, 4)]);
    let mut game = game_with(TetrominoType::I, start, &[]);
    assert_eq!(game.rotate(CCW), Ok(true));
    assert_eq!(game.rotate(CW), Ok(true));
    assert_eq!(cells_of(&game), [at(3, 7), at(3, 6), at(3, 5), at(3, 4)]);
    let lying = [at(3, 10), at(4, 10), at(5, 10), at(6, 10)];
    let mut game = game_with(TetrominoType::I, lying, &[]);
    assert_eq!(game.rotate(CW), Ok(true));
    assert_eq!(game.rotate(CCW), Ok(true));
    assert_eq!(cells_of(&game), [at(5, 10), at(4, 10), at(3, 10), at(2, 10)]);
    let mut game = game_with(TetrominoType::I, lying, &[]);
    assert_eq!(game.rotate(CCW), Ok(true));
    assert_eq!(game.rotate(CW), Ok(true));
    assert_eq!(cells_of(&game), [at(7, 10), at(6, 10), at(5, 10), at(4, 10)]);
}

#[test]
fn an_unknown_footprint_is_a_fault_and_stays() {
    let start = [at(2, 2), at(3, 3), at(4, 4), at(5, 5)];
    let mut game = game_with(TetrominoType::I, start, &[]);
    assert_eq!(game.rotate(CW), Err(Fault::UnknownFootprint));
    assert_eq!(cells_of(&game), start);
    assert_eq!(game.rotate(CCW), Err(Fault::UnknownFootprint));
    assert_eq!(cells_of(&game), start);
}

#[test]
fn rotation_without_a_piece_does_nothing() {
    let mut game = Game::new(FallSchedule::uniform(1000));
    assert_eq!(game.rotate(CW), Ok(false));
    assert_eq!(game.rotate(CCW), Ok(false));
    assert!(game.piece().is_none());
}

#[test]
fn rotation_keeps_every_cell_in_the_field_wherever_the_piece_stands() {
    let shapes = [
        TetrominoType::I,
        TetrominoType::O,
        TetrominoType::T,
        TetrominoType::S,
        TetrominoType::Z,
        TetrominoType::L,
        TetrominoType::J,
    ];
    for shape in shapes {
        let spawn = Piece::spawn(shape);
        for dx in -4..6 {
            for dy in 0..21 {
                let mut cells = spawn.cells;
                for c in cells.iter_mut() {
                    c.x += dx;
                    c.y += dy;
                }
                let candidate = Piece { shape, cells };
                if !candidate.is_on_grid() {
                    continue;
                }
                for first in [CW, CCW] {
                    for second in [CW, CCW] {
                        let mut game = game_with(shape, cells, &[]);
                        for dir in [first, second, first, first] {
                            let before = cells_of(&game);
                            let outcome = game.rotate(dir).unwrap();
                            let after = cells_of(&game);
                            if !outcome {
                                assert_eq!(before, after);
                            }
                            assert!(game.piece().unwrap().is_on_grid());
                            assert_eq!(count_current(&game), 4);
                            for c in after.iter() {
                                assert!(game.grid().read(*c).unwrap().is_current());
                            }
                        }
                    }
                }
            }
        }
    }
}
