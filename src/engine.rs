use vstd::prelude::*;

use crate::cell::{human_placement, CellState};
use crate::gate::{GateModel, TickGate};
use crate::orchestrator::{
    active_index_of, build_pairing, destination_of, dispatch_spec, dispatched_index,
    pairing_spec, phase_after, phase_wf, workgroup_count, BindingPairing, Dispatch, Grid,
    KernelStatus, Phase,
};

verus! {

/// Why the engine refused to start or to go on.
#[derive(Debug, PartialEq, Eq)]
pub enum EngineError {
    /// A grid handed to the engine does not hold exactly one record per cell.
    SizeMismatch { expected: u64, actual: usize },
    /// The tick timer was given a period of zero.
    InvalidPeriod,
    /// The compute kernel failed to load; no dispatch will follow.
    KernelLoad(String),
    /// An earlier kernel failure stopped all dispatches.
    Halted,
    /// An edit names a cell outside the board.
    OutOfRange { x: u32, y: u32 },
    /// A placement lies more rows up than the board is high.
    AboveBoard { x: u32, rows_up: u32 },
    /// No dispatch has been issued whose output could be stored.
    NoDispatch,
}

/// A replacement record for the cell at column `x`, row `y`.
#[derive(Clone, Copy, Debug, PartialEq, Eq, Structural)]
pub struct PendingEdit {
    pub x: u32,
    pub y: u32,
    pub cell: CellState,
}

/// Abstract state of the engine.
pub struct EngineModel {
    pub width: nat,
    pub height: nat,
    pub grid_a: Seq<CellState>,
    pub grid_b: Seq<CellState>,
    pub gate: GateModel,
    pub phase: Phase,
    pub pending: Option<PendingEdit>,
}

impl EngineModel {
    pub open spec fn cell_count(self) -> nat {
        self.width * self.height
    }

    pub open spec fn in_bounds(self, x: int, y: int) -> bool {
        0 <= x < self.width && 0 <= y < self.height
    }

    /// Linear offset of column `x`, row `y`.
    pub open spec fn offset(self, x: int, y: int) -> int {
        y * self.width + x
    }

    pub open spec fn wf(self) -> bool {
        &&& self.width <= i32::MAX
        &&& self.height <= i32::MAX
        &&& self.grid_a.len() == self.cell_count()
        &&& self.grid_b.len() == self.cell_count()
        &&& self.gate.wf()
        &&& phase_wf(self.phase)
        &&& self.pending matches Some(e) ==> self.in_bounds(e.x as int, e.y as int)
    }

    pub open spec fn active_index(self) -> usize {
        active_index_of(self.phase)
    }

    pub open spec fn grid(self, g: Grid) -> Seq<CellState> {
        match g {
            Grid::A => self.grid_a,
            Grid::B => self.grid_b,
        }
    }

    /// An edit replaces whatever edit was pending.
    pub open spec fn submitted(self, e: PendingEdit) -> EngineModel {
        EngineModel { pending: Some(e), ..self }
    }

    /// On a pass where the kernel will not run, a pending edit is written into
    /// both grids at its offset and cleared; otherwise it stays pending.
    pub open spec fn injected(self, compute_will_run: bool) -> EngineModel {
        match self.pending {
            Some(e) => if compute_will_run {
                self
            } else {
                let off = self.offset(e.x as int, e.y as int);
                EngineModel {
                    grid_a: self.grid_a.update(off, e.cell),
                    grid_b: self.grid_b.update(off, e.cell),
                    pending: None,
                    ..self
                }
            },
            None => self,
        }
    }

    /// A pass once the timer's signal for it is known: the edit injector acts,
    /// then the orchestrator.
    pub open spec fn gated(self, fired: bool, status: KernelStatus) -> EngineModel {
        let m = self.injected(fired);
        EngineModel { phase: phase_after(m.phase, fired, status), ..m }
    }

    /// The latest dispatch's output replaces the destination grid of its pairing.
    pub open spec fn stored(self, output: Seq<CellState>) -> EngineModel {
        match self.phase {
            Phase::Dispatching(i) => if destination_of(i as int) == Grid::A {
                EngineModel { grid_a: output, ..self }
            } else {
                EngineModel { grid_b: output, ..self }
            },
            _ => self,
        }
    }

    /// Whether the timer fires on a pass that saw `elapsed` nanoseconds.
    pub open spec fn fires(self, elapsed: nat) -> bool {
        self.gate.advanced(elapsed).fired
    }

    /// A whole pass: the timer advances and its signal is consumed once.
    pub open spec fn passed(self, elapsed: nat, status: KernelStatus) -> EngineModel {
        let m = EngineModel { gate: self.gate.advanced(elapsed).consumed(), ..self };
        m.gated(self.fires(elapsed), status)
    }

    /// What a pass reports, given the timer's signal for it.
    pub open spec fn outcome(self, fired: bool, status: KernelStatus) -> Result<
        Option<Dispatch>,
        EngineError,
    > {
        match self.phase {
            Phase::Halted => Err(EngineError::Halted),
            Phase::Uninitialized => match status {
                KernelStatus::Error(d) => Err(EngineError::KernelLoad(d)),
                _ => Ok(None),
            },
            _ => match dispatched_index(self.phase, fired) {
                Some(i) => Ok(Some(dispatch_spec(i, self.width as int, self.height as int))),
                None => Ok(None),
            },
        }
    }
}

/// The board store, the pending edit, the tick timer and the orchestrator,
/// advanced together one scheduling pass at a time.
pub struct ComputeEngine {
    width: u32,
    height: u32,
    grid_a: Vec<CellState>,
    grid_b: Vec<CellState>,
    gate: TickGate,
    phase: Phase,
    pending: Option<PendingEdit>,
    pairing_0: BindingPairing,
    pairing_1: BindingPairing,
}

impl View for ComputeEngine {
    type V = EngineModel;

    closed spec fn view(&self) -> EngineModel {
        EngineModel {
            width: self.width as nat,
            height: self.height as nat,
            grid_a: self.grid_a@,
            grid_b: self.grid_b@,
            gate: self.gate@,
            phase: self.phase,
            pending: self.pending,
        }
    }
}

/// A copy of `src`, record by record.
fn copy_grid(src: &Vec<CellState>) -> (r: Vec<CellState>)
    ensures
        r@ == src@,
{
    let mut r: Vec<CellState> = Vec::with_capacity(src.len());
    let mut i: usize = 0;
    while i < src.len()
        invariant
            i <= src@.len(),
            r@ == src@.subrange(0, i as int),
        decreases src@.len() - i,
    {
        r.push(src[i]);
        i = i + 1;
        assert(r@ =~= src@.subrange(0, i as int));
    }
    assert(r@ =~= src@);
    r
}

proof fn lemma_offset_in_bounds(x: int, y: int, width: int, height: int)
    requires
        0 <= x < width,
        0 <= y < height,
    ensures
        0 <= y * width + x < width * height,
{
    assert(0 <= y * width + x < width * height) by (nonlinear_arith)
        requires
            0 <= x < width,
            0 <= y < height,
    ;
}

impl ComputeEngine {
    /// The abstract state is well formed and both binding pairings match the board.
    pub open spec fn wf(&self) -> bool {
        &&& self@.wf()
        &&& self.pairings_built()
    }

    pub closed spec fn pairings_built(&self) -> bool {
        &&& self.pairing_0 == pairing_spec(0, self.width as int, self.height as int)
        &&& self.pairing_1 == pairing_spec(1, self.width as int, self.height as int)
    }

    /// Starts an engine on a `width` by `height` board whose two grids both
    /// begin as `seed`, with a tick timer of `period` nanoseconds. The board's
    /// dimensions must fit the kernel's 32-bit signed constants. A refused
    /// start yields no engine, so no dispatch can ever follow it.
    pub fn new(width: u32, height: u32, period: u64, seed: Vec<CellState>) -> (r: Result<
        ComputeEngine,
        EngineError,
    >)
        requires
            width <= i32::MAX,
            height <= i32::MAX,
        ensures
            period == 0 ==> r == Err::<ComputeEngine, EngineError>(EngineError::InvalidPeriod),
            period != 0 && seed@.len() != width * height ==> r == Err::<
                ComputeEngine,
                EngineError,
            >(EngineError::SizeMismatch { expected: (width * height) as u64, actual: seed@.len() as usize }),
            period != 0 && seed@.len() == width * height <==> r.is_ok(),
            r matches Ok(e) ==> e.wf() && e@ == (EngineModel {
                width: width as nat,
                height: height as nat,
                grid_a: seed@,
                grid_b: seed@,
                gate: GateModel { period: period as nat, accumulated: 0, fired: false },
                phase: Phase::Uninitialized,
                pending: None,
            }),
    {
        let gate = match TickGate::new(period) {
            Some(g) => g,
            None => {
                return Err(EngineError::InvalidPeriod);
            },
        };
        assert(width * height <= u64::MAX) by (nonlinear_arith)
            requires
                width <= i32::MAX,
                height <= i32::MAX,
        ;
        let expected = width as u64 * height as u64;
        if seed.len() as u64 != expected {
            return Err(EngineError::SizeMismatch { expected, actual: seed.len() });
        }
        let grid_b = copy_grid(&seed);
        Ok(
            ComputeEngine {
                width,
                height,
                grid_a: seed,
                grid_b,
                gate,
                phase: Phase::Uninitialized,
                pending: None,
                pairing_0: build_pairing(0, width, height),
                pairing_1: build_pairing(1, width, height),
            },
        )
    }

    pub fn width(&self) -> (r: u32)
        ensures
            r == self@.width,
    {
        self.width
    }

    pub fn height(&self) -> (r: u32)
        ensures
            r == self@.height,
    {
        self.height
    }

    pub fn phase(&self) -> (r: Phase)
        ensures
            r == self@.phase,
    {
        self.phase
    }

    /// The pairing that the next dispatch will use, which names the grid that
    /// the latest dispatch wrote (0 for A, 1 for B): the one to display.
    pub fn active_index(&self) -> (r: usize)
        requires
            self.wf(),
        ensures
            r == self@.active_index(),
    {
        match self.phase {
            Phase::Dispatching(i) => 1 - i,
            _ => 1,
        }
    }

    pub fn pending_edit(&self) -> (r: Option<PendingEdit>)
        ensures
            r == self@.pending,
    {
        self.pending
    }

    pub fn gate(&self) -> (r: &TickGate)
        ensures
            r@ == self@.gate,
    {
        &self.gate
    }

    pub fn grid(&self, g: Grid) -> (r: &Vec<CellState>)
        ensures
            r@ == self@.grid(g),
    {
        match g {
            Grid::A => &self.grid_a,
            Grid::B => &self.grid_b,
        }
    }

    /// One of the two binding pairings built when the engine started.
    pub fn pairing(&self, index: usize) -> (r: BindingPairing)
        requires
            self.wf(),
            index < 2,
        ensures
            r == pairing_spec(index, self@.width as int, self@.height as int),
    {
        if index == 0 {
            self.pairing_0
        } else {
            self.pairing_1
        }
    }

    /// Stages the replacement of the cell at column `x`, row `y`, dropping any
    /// edit that was still pending; a cell outside the board is refused.
    pub fn submit_edit(&mut self, x: u32, y: u32, cell: CellState) -> (r: Result<(), EngineError>)
        requires
            old(self).wf(),
        ensures
            final(self).wf(),
            old(self)@.in_bounds(x as int, y as int) ==> r is Ok && final(self)@ == old(
                self,
            )@.submitted(PendingEdit { x, y, cell }),
            !old(self)@.in_bounds(x as int, y as int) ==> r == Err::<(), EngineError>(
                EngineError::OutOfRange { x, y },
            ) && final(self)@ == old(self)@,
    {
        if x >= self.width || y >= self.height {
            return Err(EngineError::OutOfRange { x, y });
        }
        self.pending = Some(PendingEdit { x, y, cell });
        Ok(())
    }

    /// Stages the placement of humans under the cursor: column `x`, and
    /// `row_up` rows up from the board's bottom edge as the display shows it,
    /// which is board row `height - row_up`. A cell outside the board is refused.
    /// (`row_up` of zero names row `height`, one past the last row.)
    pub fn place_human(&mut self, x: u32, row_up: u32) -> (r: Result<(), EngineError>)
        requires
            old(self).wf(),
        ensures
            final(self).wf(),
            row_up <= old(self)@.height && old(self)@.in_bounds(
                x as int,
                old(self)@.height - row_up,
            ) ==> r is Ok && final(self)@ == old(self)@.submitted(
                PendingEdit {
                    x,
                    y: (old(self)@.height - row_up) as u32,
                    cell: human_placement(),
                },
            ),
            row_up <= old(self)@.height && !old(self)@.in_bounds(
                x as int,
                old(self)@.height - row_up,
            ) ==> r == Err::<(), EngineError>(
                EngineError::OutOfRange { x, y: (old(self)@.height - row_up) as u32 },
            ) && final(self)@ == old(self)@,
            row_up > old(self)@.height ==> r == Err::<(), EngineError>(
                EngineError::AboveBoard { x, rows_up: row_up },
            ) && final(self)@ == old(self)@,
    {
        if row_up > self.height {
            return Err(EngineError::AboveBoard { x, rows_up: row_up });
        }
        self.submit_edit(x, self.height - row_up, CellState::placed_human())
    }

    /// The edit injector: writes a pending edit into both grids unless the
    /// kernel will run on this pass.
    fn inject(&mut self, compute_will_run: bool)
        requires
            old(self).wf(),
        ensures
            final(self).wf(),
            final(self)@ == old(self)@.injected(compute_will_run),
    {
        if compute_will_run {
            return;
        }
        if let Some(e) = self.pending {
            let len = self.grid_a.len();
            proof {
                lemma_offset_in_bounds(e.x as int, e.y as int, self.width as int, self.height as int);
                assert(e.y * self.width <= e.y * self.width + e.x < len);
            }
            let off = e.y as usize * self.width as usize + e.x as usize;
            self.grid_a.set(off, e.cell);
            self.grid_b.set(off, e.cell);
            self.pending = None;
        }
    }

    fn dispatch(&self, index: usize) -> (r: Dispatch)
        requires
            self.wf(),
            index < 2,
        ensures
            r == dispatch_spec(index, self@.width as int, self@.height as int),
    {
        Dispatch {
            pairing: self.pairing(index),
            workgroups_x: workgroup_count(self.width),
            workgroups_y: workgroup_count(self.height),
        }
    }

    /// One scheduling pass after `elapsed` nanoseconds: the timer advances and
    /// is read once; a pending edit is injected if the kernel will not run;
    /// then the orchestrator follows the kernel's `status` while uninitialized,
    /// or dispatches with the next pairing if the timer fired. A kernel that
    /// failed to load halts every later dispatch.
    pub fn pass(&mut self, elapsed: u64, status: KernelStatus) -> (r: Result<
        Option<Dispatch>,
        EngineError,
    >)
        requires
            old(self).wf(),
        ensures
            final(self).wf(),
            final(self)@ == old(self)@.passed(elapsed as nat, status),
            r == old(self)@.outcome(old(self)@.fires(elapsed as nat), status),
    {
        self.gate.advance(elapsed);
        let fired = self.gate.consume_fired();
        self.inject(fired);
        match self.phase {
            Phase::Halted => Err(EngineError::Halted),
            Phase::Uninitialized => match status {
                KernelStatus::StillLoading => Ok(None),
                KernelStatus::Ready => {
                    self.phase = Phase::Ready;
                    Ok(None)
                },
                KernelStatus::Error(detail) => {
                    self.phase = Phase::Halted;
                    Err(EngineError::KernelLoad(detail))
                },
            },
            Phase::Ready => {
                if fired {
                    self.phase = Phase::Dispatching(1);
                    Ok(Some(self.dispatch(1)))
                } else {
                    Ok(None)
                }
            },
            Phase::Dispatching(i) => {
                if fired {
                    let next = 1 - i;
                    self.phase = Phase::Dispatching(next);
                    Ok(Some(self.dispatch(next)))
                } else {
                    Ok(None)
                }
            },
        }
    }

    /// Stores what the latest dispatch's kernel wrote: `output` replaces the
    /// destination grid of that dispatch's pairing and the source grid is left
    /// as it was.
    pub fn store_kernel_output(&mut self, output: Vec<CellState>) -> (r: Result<(), EngineError>)
        requires
            old(self).wf(),
        ensures
            final(self).wf(),
            !(old(self)@.phase is Dispatching) ==> r == Err::<(), EngineError>(
                EngineError::NoDispatch,
            ) && final(self)@ == old(self)@,
            old(self)@.phase is Dispatching && output@.len() != old(self)@.cell_count() ==> r
                == Err::<(), EngineError>(
                EngineError::SizeMismatch {
                    expected: old(self)@.cell_count() as u64,
                    actual: output@.len() as usize,
                },
            ) && final(self)@ == old(self)@,
            old(self)@.phase is Dispatching && output@.len() == old(self)@.cell_count() ==> r is Ok
                && final(self)@ == old(self)@.stored(output@),
    {
        let i = match self.phase {
            Phase::Dispatching(i) => i,
            _ => {
                return Err(EngineError::NoDispatch);
            },
        };
        proof {
            assert(self.width * self.height <= u64::MAX) by (nonlinear_arith)
                requires
                    self.width <= i32::MAX,
                    self.height <= i32::MAX,
            ;
        }
        let expected = self.width as u64 * self.height as u64;
        if output.len() as u64 != expected {
            return Err(EngineError::SizeMismatch { expected, actual: output.len() });
        }
        if i == 0 {
            self.grid_b = output;
        } else {
            self.grid_a = output;
        }
        Ok(())
    }
}

} // verus!
