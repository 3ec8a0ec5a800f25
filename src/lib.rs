//! A double-buffered compute engine for a cellular board: two grids of cell
//! records alternate between the read-source and write-destination roles of a
//! periodic parallel kernel, while single-cell edits from an interactive
//! control path are merged into both grids on passes where no kernel runs.
pub mod cell;
pub mod constants;
pub mod gate;
pub mod orchestrator;
pub mod engine;
pub mod laws;
pub mod seeding;

pub use cell::{BoardConstants, CellState, STATUS_EMPTY, STATUS_HUMAN, STATUS_ZOMBIE};
pub use constants::{BOARD_HEIGHT, BOARD_WIDTH, UPDATE_RATE_MS};
pub use seeding::{generate_map, occupant_of};
pub use gate::{GateModel, TickGate};
pub use orchestrator::{
    workgroup_count, BindingPairing, Dispatch, Grid, KernelStatus, Phase, WORKGROUP_SIZE,
};
pub use engine::{ComputeEngine, EngineError, EngineModel, PendingEdit};
