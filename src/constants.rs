use vstd::prelude::*;

verus! {

/// Width of the board, in cells.
pub const BOARD_WIDTH: u32 = 1600;

/// Height of the board, in cells.
pub const BOARD_HEIGHT: u32 = 1600;

/// Milliseconds between two dispatches of the compute kernel.
pub const UPDATE_RATE_MS: u64 = 10;

} // verus!
