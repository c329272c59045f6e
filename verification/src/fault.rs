//! Internal-consistency faults: conditions that the engine's own invariants
//! rule out, and that it reports instead of failing when they are met anyway.

use vstd::prelude::*;

verus! {

/// An internal-consistency fault.
#[derive(Clone, Copy, Debug, PartialEq, Eq, Structural)]
pub enum Fault {
    /// A cell or a row outside the grid was asked for.
    OutOfRange,
    /// The footprint of the active piece matches no known orientation.
    UnknownFootprint,
    /// The occupancy grid disagrees with the piece or the session it belongs to.
    OccupancyMismatch,
}

} // verus!
