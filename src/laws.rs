use vstd::prelude::*;

use crate::engine::{EngineError, EngineModel, PendingEdit};
use crate::orchestrator::{dispatch_spec, KernelStatus, Phase};

verus! {

/// The engine after its first `n` scheduling passes, pass `j` having seen
/// `elapsed[j]` nanoseconds and the kernel status `status`: what `n` calls of
/// `ComputeEngine::pass` leave.
pub open spec fn run(m: EngineModel, elapsed: Seq<nat>, status: KernelStatus, n: nat) -> EngineModel
    decreases n,
{
    if n == 0 {
        m
    } else {
        run(m, elapsed, status, (n - 1) as nat).passed(elapsed[n - 1], status)
    }
}

/// The timer fires on each of the first `n` passes.
pub open spec fn fires_throughout(
    m: EngineModel,
    elapsed: Seq<nat>,
    status: KernelStatus,
    n: nat,
) -> bool {
    &&& n <= elapsed.len()
    &&& forall|j: nat| j < n ==> #[trigger] run(m, elapsed, status, j).fires(elapsed[j as int])
}

/// A pass once its timer signal is known keeps the board's dimensions and the
/// engine's well-formedness.
pub proof fn lemma_gated_wf(m: EngineModel, fired: bool, status: KernelStatus)
    requires
        m.wf(),
    ensures
        m.gated(fired, status).wf(),
        m.gated(fired, status).width == m.width,
        m.gated(fired, status).height == m.height,
{
    if let Some(e) = m.pending {
        if !fired {
            assert(0 <= m.offset(e.x as int, e.y as int) < m.cell_count()) by (nonlinear_arith)
                requires
                    0 <= e.x < m.width,
                    0 <= e.y < m.height,
                    m.offset(e.x as int, e.y as int) == e.y * m.width + e.x,
            ;
        }
    }
}

/// A whole pass keeps the board's dimensions and the engine's well-formedness.
pub proof fn lemma_passed_wf(m: EngineModel, elapsed: nat, status: KernelStatus)
    requires
        m.wf(),
    ensures
        m.passed(elapsed, status).wf(),
        m.passed(elapsed, status).width == m.width,
        m.passed(elapsed, status).height == m.height,
{
    let g = m.gate.advanced(elapsed);
    let p = m.gate.period as int;
    vstd::arithmetic::div_mod::lemma_mod_bound((m.gate.accumulated + elapsed) as int, p);
    lemma_gated_wf(EngineModel { gate: g.consumed(), ..m }, m.fires(elapsed), status);
}

proof fn lemma_run_fired(m: EngineModel, elapsed: Seq<nat>, status: KernelStatus, n: nat)
    requires
        m.wf(),
        m.phase == Phase::Ready,
        fires_throughout(m, elapsed, status, n),
    ensures
        run(m, elapsed, status, n).wf(),
        run(m, elapsed, status, n).width == m.width,
        run(m, elapsed, status, n).height == m.height,
        run(m, elapsed, status, n).phase == (if n == 0 {
            Phase::Ready
        } else if n % 2 == 1 {
            Phase::Dispatching(1)
        } else {
            Phase::Dispatching(0)
        }),
    decreases n,
{
    if n > 0 {
        let k = (n - 1) as nat;
        assert(fires_throughout(m, elapsed, status, k));
        lemma_run_fired(m, elapsed, status, k);
        assert(run(m, elapsed, status, k).fires(elapsed[k as int]));
        lemma_passed_wf(run(m, elapsed, status, k), elapsed[k as int], status);
    }
}

/// Starting from `Ready`, over a run of passes on each of which the timer
/// fires, the active index after `n` passes is 1 when `n` is even and 0 when
/// it is odd, and pass `j` (counting from 0) dispatches with pairing 1 when
/// `j` is even and pairing 0 when it is odd: strict alternation, first 1.
pub proof fn role_alternation(m: EngineModel, elapsed: Seq<nat>, status: KernelStatus, n: nat)
    requires
        m.wf(),
        m.phase == Phase::Ready,
        fires_throughout(m, elapsed, status, n),
    ensures
        run(m, elapsed, status, n).wf(),
        run(m, elapsed, status, n).active_index() == (if n % 2 == 0 {
            1usize
        } else {
            0usize
        }),
        forall|j: nat|
            j < n ==> (#[trigger] run(m, elapsed, status, j)).outcome(
                run(m, elapsed, status, j).fires(elapsed[j as int]),
                status,
            ) == Ok::<_, EngineError>(
                Some(
                    dispatch_spec(
                        if j % 2 == 0 {
                            1usize
                        } else {
                            0usize
                        },
                        m.width as int,
                        m.height as int,
                    ),
                ),
            ),
{
    lemma_run_fired(m, elapsed, status, n);
    assert forall|j: nat| j < n implies (#[trigger] run(m, elapsed, status, j)).outcome(
        run(m, elapsed, status, j).fires(elapsed[j as int]),
        status,
    ) == Ok::<_, EngineError>(
        Some(
            dispatch_spec(
                if j % 2 == 0 {
                    1usize
                } else {
                    0usize
                },
                m.width as int,
                m.height as int,
            ),
        ),
    ) by {
        assert(fires_throughout(m, elapsed, status, j));
        lemma_run_fired(m, elapsed, status, j);
    }
}

/// On a pass where the timer does not fire, the active index stays as it was
/// and no dispatch is issued.
pub proof fn no_dispatch_without_fired_gate(m: EngineModel, elapsed: nat, status: KernelStatus)
    requires
        m.wf(),
        !m.fires(elapsed),
    ensures
        m.passed(elapsed, status).active_index() == m.active_index(),
        !(m.outcome(m.fires(elapsed), status) matches Ok(Some(_))),
{
}

proof fn lemma_run_deferred(
    m: EngineModel,
    e: PendingEdit,
    elapsed: Seq<nat>,
    status: KernelStatus,
    j: nat,
)
    requires
        m.wf(),
        m.pending == Some(e),
        fires_throughout(m, elapsed, status, j),
    ensures
        run(m, elapsed, status, j).wf(),
        run(m, elapsed, status, j).pending == Some(e),
        run(m, elapsed, status, j).grid_a == m.grid_a,
        run(m, elapsed, status, j).grid_b == m.grid_b,
        run(m, elapsed, status, j).width == m.width,
        run(m, elapsed, status, j).height == m.height,
    decreases j,
{
    if j > 0 {
        let k = (j - 1) as nat;
        assert(fires_throughout(m, elapsed, status, k));
        lemma_run_deferred(m, e, elapsed, status, k);
        assert(run(m, elapsed, status, k).fires(elapsed[k as int]));
        lemma_passed_wf(run(m, elapsed, status, k), elapsed[k as int], status);
    }
}

/// A pending edit stays pending, with both grids untouched, through the `k`
/// first passes on which the timer fires, and the next pass, on which it does
/// not fire, writes the edit into both grids and clears it.
pub proof fn edit_deferral(
    m: EngineModel,
    e: PendingEdit,
    elapsed: Seq<nat>,
    status: KernelStatus,
    k: nat,
)
    requires
        m.wf(),
        m.pending == Some(e),
        fires_throughout(m, elapsed, status, k),
        k < elapsed.len(),
        !run(m, elapsed, status, k).fires(elapsed[k as int]),
    ensures
        forall|j: nat|
            j <= k ==> (#[trigger] run(m, elapsed, status, j)).pending == Some(e) && run(
                m,
                elapsed,
                status,
                j,
            ).grid_a == m.grid_a && run(m, elapsed, status, j).grid_b == m.grid_b,
        run(m, elapsed, status, k + 1).pending is None,
        run(m, elapsed, status, k + 1).grid_a[m.offset(e.x as int, e.y as int)] == e.cell,
        run(m, elapsed, status, k + 1).grid_b[m.offset(e.x as int, e.y as int)] == e.cell,
{
    assert forall|j: nat| j <= k implies (#[trigger] run(m, elapsed, status, j)).pending == Some(
        e,
    ) && run(m, elapsed, status, j).grid_a == m.grid_a && run(m, elapsed, status, j).grid_b
        == m.grid_b by {
        assert(fires_throughout(m, elapsed, status, j));
        lemma_run_deferred(m, e, elapsed, status, j);
    }
    lemma_run_deferred(m, e, elapsed, status, k);
    idle_injection_consistency(run(m, elapsed, status, k), elapsed[k as int], status);
}

/// Right after a pass on which the timer does not fire and an edit was
/// pending, both grids hold the edit's record at its offset, and every other
/// cell is as it was.
pub proof fn idle_injection_consistency(m: EngineModel, elapsed: nat, status: KernelStatus)
    requires
        m.wf(),
        m.pending is Some,
        !m.fires(elapsed),
    ensures
        ({
            let e = m.pending->Some_0;
            let off = m.offset(e.x as int, e.y as int);
            let after = m.passed(elapsed, status);
            &&& 0 <= off < m.cell_count()
            &&& after.pending is None
            &&& after.grid_a[off] == e.cell
            &&& after.grid_b[off] == e.cell
            &&& after.grid_a[off] == after.grid_b[off]
            &&& after.grid_a == m.grid_a.update(off, e.cell)
            &&& after.grid_b == m.grid_b.update(off, e.cell)
        }),
{
    lemma_passed_wf(m, elapsed, status);
    let e = m.pending->Some_0;
    assert(0 <= m.offset(e.x as int, e.y as int) < m.cell_count()) by (nonlinear_arith)
        requires
            0 <= e.x < m.width,
            0 <= e.y < m.height,
            m.offset(e.x as int, e.y as int) == e.y * m.width + e.x,
            m.cell_count() == m.width * m.height,
    ;
}

/// Submitting `e1` and then `e2` before a pass on which the timer does not
/// fire applies `e2` alone: the grids after that pass differ from the grids
/// before only at `e2`'s offset.
pub proof fn latest_wins(
    m: EngineModel,
    e1: PendingEdit,
    e2: PendingEdit,
    elapsed: nat,
    status: KernelStatus,
)
    requires
        m.wf(),
        m.in_bounds(e1.x as int, e1.y as int),
        m.in_bounds(e2.x as int, e2.y as int),
        !m.fires(elapsed),
    ensures
        m.submitted(e1).submitted(e2) == m.submitted(e2),
        m.submitted(e1).submitted(e2).passed(elapsed, status).pending is None,
        m.submitted(e1).submitted(e2).passed(elapsed, status).grid_a == m.grid_a.update(
            m.offset(e2.x as int, e2.y as int),
            e2.cell,
        ),
        m.submitted(e1).submitted(e2).passed(elapsed, status).grid_b == m.grid_b.update(
            m.offset(e2.x as int, e2.y as int),
            e2.cell,
        ),
{
    idle_injection_consistency(m.submitted(e2), elapsed, status);
}

} // verus!
