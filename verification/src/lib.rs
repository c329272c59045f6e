//! Rule engine of a falling-block puzzle game.
//!
//! The engine owns the occupancy grid of the playing field, decides whether
//! the active piece may move or rotate, settles blocked pieces on the heap,
//! clears full rows and keeps score, level and fall speed. It draws nothing
//! and reads no device: it consumes intents and elapsed time, and exposes its
//! state to whatever presents it.
//!
//! The parts, from the leaves up:
//!
//! - `geometry`: the size of the field and the addresses of its cells;
//! - `catalog`: the seven pieces, their cells, colours and sizes;
//! - `grid`: the occupancy grid and its operations on cells and rows;
//! - `piece`: the active piece and its bounding box;
//! - `rotation`: rotation by the class of the bounding box;
//! - `movement`: shifting the piece, and settling it on the heap;
//! - `lines`: clearing full rows;
//! - `session`: score, level, counters and flags;
//! - `timer`: the drop timer and the fall interval of each level;
//! - `spawn`: the spawn cycle, and the restart;
//! - `engine`: the cycle of one tick;
//! - `display`: what is shown of the game;
//! - `laws`: what holds of every game.
//!
//! A `Game` is well formed when its grid, piece and session agree; every
//! operation asks for a well-formed game and leaves one.

use vstd::prelude::*;

pub mod catalog;
pub mod display;
pub mod engine;
pub mod fault;
pub mod game;
pub mod geometry;
pub mod grid;
pub mod laws;
pub mod lines;
pub mod movement;
pub mod piece;
pub mod random;
pub mod rotation;
pub mod session;
pub mod spawn;
pub mod timer;

pub use crate::catalog::{blocks_from_type, instantiate, Color, TetrominoType};
pub use crate::display::LiveCell;
pub use crate::engine::{Intents, TickReport};
pub use crate::fault::Fault;
pub use crate::game::Game;
pub use crate::geometry::MatrixPosition;
pub use crate::grid::{Block, Cell, Grid};
pub use crate::movement::{Motion, Sideways};
pub use crate::piece::{BoundingBox, Piece};
pub use crate::rotation::{classify, rotate_block, scan_rectangle, BoxClass, Rotation};
pub use crate::session::{FallSpeed, Phase, Session};
pub use crate::spawn::Spawned;
pub use crate::timer::{DropTimer, FallSchedule};

verus! {

} // verus!
