use vstd::prelude::*;

verus! {

/// Status tag of an empty cell.
pub const STATUS_EMPTY: u32 = 0;

/// Status tag of a cell held by humans.
pub const STATUS_HUMAN: u32 = 1;

/// Status tag of a cell held by zombies.
pub const STATUS_ZOMBIE: u32 = 2;

/// Fixed-layout record of one cell, laid out as the kernel reads it.
#[derive(Clone, Copy, Debug, PartialEq, Eq, Structural)]
pub struct CellState {
    pub neighbors_count: i32,
    pub edge_distance: i32,
    pub altitude: i32,
    pub temperature: i32,
    pub population: i32,
    /// Movement direction as a delta, which the kernel finds easiest to use.
    pub direction_x: i32,
    pub direction_y: i32,
    pub second_direction_x: i32,
    pub second_direction_y: i32,
    pub smell_human: i32,
    pub smell_zombie: i32,
    /// One of `STATUS_EMPTY`, `STATUS_HUMAN`, `STATUS_ZOMBIE`.
    pub stored_status: u32,
}

/// The all-zero record: an empty cell on flat ground.
pub open spec fn zero_cell() -> CellState {
    CellState {
        neighbors_count: 0,
        edge_distance: 0,
        altitude: 0,
        temperature: 0,
        population: 0,
        direction_x: 0,
        direction_y: 0,
        second_direction_x: 0,
        second_direction_y: 0,
        smell_human: 0,
        smell_zombie: 0,
        stored_status: STATUS_EMPTY,
    }
}

/// The record that an interactive placement of humans writes into the board.
pub open spec fn human_placement() -> CellState {
    CellState { population: 100, stored_status: STATUS_HUMAN, ..zero_cell() }
}

impl CellState {
    /// The status tag is known, and a cell is empty exactly when nobody lives there.
    pub open spec fn wf(self) -> bool {
        &&& self.stored_status <= STATUS_ZOMBIE
        &&& (self.stored_status == STATUS_EMPTY <==> self.population == 0)
    }

    /// An empty cell with every field zero.
    pub fn empty() -> (r: CellState)
        ensures
            r == zero_cell(),
            r.wf(),
    {
        CellState {
            neighbors_count: 0,
            edge_distance: 0,
            altitude: 0,
            temperature: 0,
            population: 0,
            direction_x: 0,
            direction_y: 0,
            second_direction_x: 0,
            second_direction_y: 0,
            smell_human: 0,
            smell_zombie: 0,
            stored_status: STATUS_EMPTY,
        }
    }

    /// The cell that placing humans on the board writes: a population of
    /// one hundred humans and every other field zero.
    pub fn placed_human() -> (r: CellState)
        ensures
            r == human_placement(),
            r.wf(),
    {
        CellState { population: 100, stored_status: STATUS_HUMAN, ..CellState::empty() }
    }

    pub fn is_empty(&self) -> (r: bool)
        ensures
            r == (self.stored_status == STATUS_EMPTY),
    {
        self.stored_status == STATUS_EMPTY
    }
}

impl Default for CellState {
    fn default() -> (r: CellState)
        ensures
            r == zero_cell(),
    {
        CellState::empty()
    }
}

/// Read-only configuration shared by both binding pairings: the board's
/// dimensions, padded to sixteen bytes.
#[derive(Clone, Copy, Debug, PartialEq, Eq, Structural)]
pub struct BoardConstants {
    pub width: i32,
    pub height: i32,
    pub padding0: i32,
    pub padding1: i32,
}

impl BoardConstants {
    pub fn new(width: i32, height: i32) -> (r: BoardConstants)
        ensures
            r.width == width,
            r.height == height,
            r.padding0 == 0,
            r.padding1 == 0,
    {
        BoardConstants { width, height, padding0: 0, padding1: 0 }
    }
}

} // verus!
