use vstd::prelude::*;

use crate::cell::BoardConstants;

verus! {

/// Width and height, in cells, of one workgroup of the compute kernel.
pub const WORKGROUP_SIZE: u32 = 8;

/// What the host reports of the compute kernel while it is being loaded.
pub enum KernelStatus {
    StillLoading,
    Ready,
    /// Loading or compiling failed, with the loader's description.
    Error(String),
}

/// The orchestrator's states. `Dispatching(i)` records the binding pairing of
/// the latest dispatch; `Halted` follows a kernel that failed to load.
#[derive(Clone, Copy, Debug, PartialEq, Eq, Structural)]
pub enum Phase {
    Uninitialized,
    Ready,
    Dispatching(usize),
    Halted,
}

/// One of the two grids of the board store.
#[derive(Clone, Copy, Debug, PartialEq, Eq, Structural)]
pub enum Grid {
    A,
    B,
}

/// The grid that pairing `index` binds as the kernel's read-source: pairing 0
/// reads A and writes B, pairing 1 reads B and writes A.
pub open spec fn source_of(index: int) -> Grid {
    if index == 0 {
        Grid::A
    } else {
        Grid::B
    }
}

pub open spec fn destination_of(index: int) -> Grid {
    if index == 0 {
        Grid::B
    } else {
        Grid::A
    }
}

/// An association of source grid, destination grid and shared constants,
/// built once and then only selected by its index.
#[derive(Clone, Copy, Debug, PartialEq, Eq, Structural)]
pub struct BindingPairing {
    pub index: usize,
    pub source: Grid,
    pub destination: Grid,
    pub constants: BoardConstants,
}

pub open spec fn pairing_spec(index: usize, width: int, height: int) -> BindingPairing {
    BindingPairing {
        index,
        source: source_of(index as int),
        destination: destination_of(index as int),
        constants: BoardConstants {
            width: width as i32,
            height: height as i32,
            padding0: 0,
            padding1: 0,
        },
    }
}

/// Workgroups needed along a dimension of `cells` cells: enough to cover
/// every cell, the last one possibly partly outside the board.
pub open spec fn workgroups_for(cells: int) -> int {
    (cells + WORKGROUP_SIZE - 1) / WORKGROUP_SIZE as int
}

/// Workgroups needed along a dimension of `cells` cells.
pub fn workgroup_count(cells: u32) -> (r: u32)
    requires
        cells <= i32::MAX,
    ensures
        r == workgroups_for(cells as int),
        r * WORKGROUP_SIZE >= cells,
        r * WORKGROUP_SIZE < cells + WORKGROUP_SIZE,
{
    (cells + (WORKGROUP_SIZE - 1)) / WORKGROUP_SIZE
}

/// One dispatch of the compute kernel over the whole board.
#[derive(Clone, Copy, Debug, PartialEq, Eq, Structural)]
pub struct Dispatch {
    pub pairing: BindingPairing,
    pub workgroups_x: u32,
    pub workgroups_y: u32,
}

pub open spec fn dispatch_spec(index: usize, width: int, height: int) -> Dispatch {
    Dispatch {
        pairing: pairing_spec(index, width, height),
        workgroups_x: workgroups_for(width) as u32,
        workgroups_y: workgroups_for(height) as u32,
    }
}

pub open spec fn phase_wf(phase: Phase) -> bool {
    phase matches Phase::Dispatching(i) ==> i < 2
}

/// The orchestrator's transition on one scheduling pass. While uninitialized it
/// only follows the kernel's status; once ready, a pass on which the timer fired
/// dispatches, with pairing 1 first and the other pairing on each later
/// dispatch; a pass on which it did not fire changes nothing.
pub open spec fn phase_after(phase: Phase, fired: bool, status: KernelStatus) -> Phase {
    match phase {
        Phase::Uninitialized => match status {
            KernelStatus::StillLoading => Phase::Uninitialized,
            KernelStatus::Ready => Phase::Ready,
            KernelStatus::Error(_) => Phase::Halted,
        },
        Phase::Ready => if fired {
            Phase::Dispatching(1)
        } else {
            Phase::Ready
        },
        Phase::Dispatching(i) => if fired {
            Phase::Dispatching((1 - i) as usize)
        } else {
            phase
        },
        Phase::Halted => Phase::Halted,
    }
}

/// The pairing that a pass dispatches with, if it dispatches.
pub open spec fn dispatched_index(phase: Phase, fired: bool) -> Option<usize> {
    match phase {
        Phase::Ready => if fired {
            Some(1usize)
        } else {
            None
        },
        Phase::Dispatching(i) => if fired {
            Some((1 - i) as usize)
        } else {
            None
        },
        _ => None,
    }
}

/// The active index: the pairing that the next dispatch will use, which is
/// also the grid that the latest dispatch wrote (0 for A, 1 for B).
pub open spec fn active_index_of(phase: Phase) -> usize {
    match phase {
        Phase::Dispatching(i) => (1 - i) as usize,
        _ => 1,
    }
}

/// Builds binding pairing `index` for a `width` by `height` board.
pub fn build_pairing(index: usize, width: u32, height: u32) -> (r: BindingPairing)
    requires
        index < 2,
        width <= i32::MAX,
        height <= i32::MAX,
    ensures
        r == pairing_spec(index, width as int, height as int),
{
    if index == 0 {
        BindingPairing {
            index,
            source: Grid::A,
            destination: Grid::B,
            constants: BoardConstants::new(width as i32, height as i32),
        }
    } else {
        BindingPairing {
            index,
            source: Grid::B,
            destination: Grid::A,
            constants: BoardConstants::new(width as i32, height as i32),
        }
    }
}

} // verus!
