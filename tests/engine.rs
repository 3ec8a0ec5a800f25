use zombie_sim::{
    generate_map, occupant_of, workgroup_count, BoardConstants, CellState, ComputeEngine, EngineError, Grid, KernelStatus,
    PendingEdit, Phase, TickGate,
};

const MS: u64 = 1_000_000;

fn blank_board(n: usize) -> Vec<CellState> {
    vec![CellState::empty(); n]
}

fn zombie(population: i32) -> CellState {
    CellState { stored_status: 2, population, ..CellState::empty() }
}

fn ready_engine(width: u32, height: u32, period: u64) -> ComputeEngine {
    let mut e = ComputeEngine::new(width, height, period, blank_board((width * height) as usize))
        .unwrap();
    assert_eq!(e.pass(0, KernelStatus::Ready), Ok(None));
    assert_eq!(e.phase(), Phase::Ready);
    e
}

#[test]
fn end_to_end_four_by_four() {
    let seed: Vec<CellState> = (0..16)
        .map(|i| CellState { altitude: i, ..CellState::empty() })
        .collect();
    let mut e = ComputeEngine::new(4, 4, 10 * MS, seed.clone()).unwrap();
    assert_eq!(e.grid(Grid::A), &seed);
    assert_eq!(e.grid(Grid::B), &seed);
    assert_eq!(e.pass(0, KernelStatus::Ready), Ok(None));

    // t = 5 ms: the edit is submitted while the timer has not fired.
    let placed = CellState::placed_human();
    e.submit_edit(1, 2, placed).unwrap();
    assert_eq!(e.pass(5 * MS, KernelStatus::Ready), Ok(None));
    assert_eq!(e.grid(Grid::A)[9], placed);
    assert_eq!(e.grid(Grid::B)[9], placed);
    assert_eq!(e.pending_edit(), None);
    assert_eq!(e.active_index(), 1);

    // t = 10 ms: the timer fires and one dispatch with pairing 1 is issued.
    let d = e.pass(5 * MS, KernelStatus::Ready).unwrap().unwrap();
    assert_eq!(d.pairing.index, 1);
    assert_eq!(d.pairing.source, Grid::B);
    assert_eq!(d.pairing.destination, Grid::A);
    assert_eq!(d.pairing.constants, BoardConstants::new(4, 4));
    assert_eq!((d.workgroups_x, d.workgroups_y), (1, 1));
    assert_eq!(e.active_index(), 0);

    // The kernel's output goes to the destination; the source is untouched.
    let before_b = e.grid(Grid::B).clone();
    let output: Vec<CellState> = (0..16).map(|_| zombie(7)).collect();
    assert_eq!(e.store_kernel_output(output.clone()), Ok(()));
    assert_eq!(e.grid(Grid::A), &output);
    assert_eq!(e.grid(Grid::B), &before_b);
}

#[test]
fn startup_fails_on_short_seed() {
    let r = ComputeEngine::new(4, 4, 10 * MS, blank_board(15));
    assert_eq!(r.err(), Some(EngineError::SizeMismatch { expected: 16, actual: 15 }));
}

#[test]
fn startup_fails_on_zero_period() {
    let r = ComputeEngine::new(4, 4, 0, blank_board(16));
    assert_eq!(r.err(), Some(EngineError::InvalidPeriod));
}

#[test]
fn new_engine_is_uninitialized_with_identical_grids() {
    let e = ComputeEngine::new(2, 3, MS, blank_board(6)).unwrap();
    assert_eq!(e.phase(), Phase::Uninitialized);
    assert_eq!((e.width(), e.height()), (2, 3));
    assert_eq!(e.grid(Grid::A), e.grid(Grid::B));
    assert_eq!(e.active_index(), 1);
    assert_eq!(e.gate().period(), MS);
}

#[test]
fn roles_alternate_on_fired_passes() {
    let mut e = ready_engine(16, 8, 10 * MS);
    let expected_pairings = [1usize, 0, 1, 0, 1, 0];
    for (n, &p) in expected_pairings.iter().enumerate() {
        let d = e.pass(10 * MS, KernelStatus::Ready).unwrap().unwrap();
        assert_eq!(d.pairing.index, p);
        assert_eq!(d.pairing, e.pairing(p));
        assert_eq!((d.workgroups_x, d.workgroups_y), (2, 1));
        let after = n + 1;
        assert_eq!(e.active_index(), 1 ^ (after % 2));
    }
}

#[test]
fn pairings_bind_opposite_grids() {
    let e = ready_engine(4, 4, MS);
    let p0 = e.pairing(0);
    let p1 = e.pairing(1);
    assert_eq!((p0.source, p0.destination), (Grid::A, Grid::B));
    assert_eq!((p1.source, p1.destination), (Grid::B, Grid::A));
    assert_eq!(p0.constants, BoardConstants { width: 4, height: 4, padding0: 0, padding1: 0 });
}

#[test]
fn no_dispatch_when_gate_has_not_fired() {
    let mut e = ready_engine(4, 4, 10 * MS);
    assert!(e.pass(10 * MS, KernelStatus::Ready).unwrap().is_some());
    let index = e.active_index();
    let phase = e.phase();
    for _ in 0..4 {
        assert_eq!(e.pass(2 * MS, KernelStatus::Ready), Ok(None));
        assert_eq!(e.active_index(), index);
        assert_eq!(e.phase(), phase);
    }
    // 8 ms gathered, 2 more fire the timer.
    assert!(e.pass(2 * MS, KernelStatus::Ready).unwrap().is_some());
    assert_ne!(e.active_index(), index);
}

#[test]
fn edit_waits_for_idle_pass() {
    let mut e = ready_engine(4, 4, 10 * MS);
    let cell = zombie(12);
    e.submit_edit(3, 1, cell).unwrap();
    for _ in 0..3 {
        assert!(e.pass(10 * MS, KernelStatus::Ready).unwrap().is_some());
        assert_eq!(e.pending_edit(), Some(PendingEdit { x: 3, y: 1, cell }));
        assert_eq!(e.grid(Grid::A)[7], CellState::empty());
        assert_eq!(e.grid(Grid::B)[7], CellState::empty());
    }
    assert_eq!(e.pass(MS, KernelStatus::Ready), Ok(None));
    assert_eq!(e.pending_edit(), None);
    assert_eq!(e.grid(Grid::A)[7], cell);
    assert_eq!(e.grid(Grid::B)[7], cell);
}

#[test]
fn idle_injection_leaves_grids_consistent() {
    let mut e = ready_engine(3, 3, 10 * MS);
    let cell = zombie(3);
    e.submit_edit(2, 2, cell).unwrap();
    e.pass(MS, KernelStatus::Ready).unwrap();
    assert_eq!(e.grid(Grid::A)[8], e.grid(Grid::B)[8]);
    assert_eq!(e.grid(Grid::A)[8], cell);
    for i in 0..8 {
        assert_eq!(e.grid(Grid::A)[i], CellState::empty());
        assert_eq!(e.grid(Grid::B)[i], CellState::empty());
    }
}

#[test]
fn latest_edit_wins() {
    let mut e = ready_engine(4, 4, 10 * MS);
    let first = zombie(1);
    let second = zombie(2);
    e.submit_edit(0, 0, first).unwrap();
    e.submit_edit(2, 3, second).unwrap();
    e.pass(MS, KernelStatus::Ready).unwrap();
    assert_eq!(e.grid(Grid::A)[0], CellState::empty());
    assert_eq!(e.grid(Grid::B)[0], CellState::empty());
    assert_eq!(e.grid(Grid::A)[14], second);
    assert_eq!(e.grid(Grid::B)[14], second);
}

#[test]
fn out_of_range_edit_is_refused() {
    let mut e = ready_engine(4, 4, MS);
    assert_eq!(
        e.submit_edit(4, 0, CellState::empty()),
        Err(EngineError::OutOfRange { x: 4, y: 0 })
    );
    assert_eq!(
        e.submit_edit(0, 4, CellState::empty()),
        Err(EngineError::OutOfRange { x: 0, y: 4 })
    );
    assert_eq!(e.pending_edit(), None);
}

#[test]
fn placing_humans_counts_rows_from_the_bottom() {
    let mut e = ready_engine(4, 4, 10 * MS);
    e.place_human(1, 3).unwrap();
    assert_eq!(
        e.pending_edit(),
        Some(PendingEdit { x: 1, y: 1, cell: CellState::placed_human() })
    );
    assert_eq!(e.place_human(1, 0), Err(EngineError::OutOfRange { x: 1, y: 4 }));
    assert_eq!(e.place_human(1, 5), Err(EngineError::AboveBoard { x: 1, rows_up: 5 }));
    assert_eq!(e.place_human(4, 2), Err(EngineError::OutOfRange { x: 4, y: 2 }));
    let placed = CellState::placed_human();
    assert_eq!((placed.stored_status, placed.population), (1, 100));
    assert_eq!(placed.altitude, 0);
}

#[test]
fn uninitialized_engine_waits_for_kernel() {
    let mut e = ComputeEngine::new(4, 4, MS, blank_board(16)).unwrap();
    for _ in 0..3 {
        assert_eq!(e.pass(5 * MS, KernelStatus::StillLoading), Ok(None));
        assert_eq!(e.phase(), Phase::Uninitialized);
    }
    assert_eq!(e.pass(5 * MS, KernelStatus::Ready), Ok(None));
    assert_eq!(e.phase(), Phase::Ready);
    let d = e.pass(5 * MS, KernelStatus::StillLoading).unwrap().unwrap();
    assert_eq!(d.pairing.index, 1);
    assert_eq!(e.phase(), Phase::Dispatching(1));
}

#[test]
fn kernel_failure_halts_dispatches() {
    let mut e = ComputeEngine::new(4, 4, MS, blank_board(16)).unwrap();
    let r = e.pass(5 * MS, KernelStatus::Error("bad shader".to_string()));
    assert_eq!(r, Err(EngineError::KernelLoad("bad shader".to_string())));
    assert_eq!(e.phase(), Phase::Halted);
    for _ in 0..3 {
        assert_eq!(e.pass(5 * MS, KernelStatus::Ready), Err(EngineError::Halted));
    }
    assert_eq!(e.store_kernel_output(blank_board(16)), Err(EngineError::NoDispatch));
}

#[test]
fn kernel_output_of_wrong_size_is_refused() {
    let mut e = ready_engine(4, 4, MS);
    assert_eq!(e.store_kernel_output(blank_board(16)), Err(EngineError::NoDispatch));
    e.pass(MS, KernelStatus::Ready).unwrap().unwrap();
    assert_eq!(
        e.store_kernel_output(blank_board(3)),
        Err(EngineError::SizeMismatch { expected: 16, actual: 3 })
    );
    // second dispatch uses pairing 0 and writes grid B
    e.pass(MS, KernelStatus::Ready).unwrap().unwrap();
    let out = vec![zombie(9); 16];
    e.store_kernel_output(out.clone()).unwrap();
    assert_eq!(e.grid(Grid::B), &out);
    assert_eq!(e.grid(Grid::A), &blank_board(16));
}

#[test]
fn gate_rejects_zero_period() {
    assert!(TickGate::new(0).is_none());
}

#[test]
fn gate_fires_once_per_period_and_keeps_remainder() {
    let mut g = TickGate::new(10).unwrap();
    g.advance(4);
    assert!(!g.has_fired());
    g.advance(6);
    assert!(g.has_fired());
    assert!(g.consume_fired());
    assert!(!g.consume_fired());
    // A starved pass of 2.5 periods fires once and keeps 5.
    g.advance(25);
    assert!(g.consume_fired());
    g.advance(4);
    assert!(!g.consume_fired());
    g.advance(1);
    assert!(g.consume_fired());
}

#[test]
fn gate_signal_survives_until_consumed() {
    let mut g = TickGate::new(3).unwrap();
    g.advance(3);
    g.advance(1);
    assert!(g.has_fired());
    assert!(g.consume_fired());
    assert!(!g.has_fired());
}

#[test]
fn seeded_map_has_terrain_and_border_fields() {
    let altitude: Vec<i32> = (0..16).collect();
    let temperature: Vec<i32> = (0..16).map(|i| -i).collect();
    let map = generate_map(4, 4, &altitude, &temperature);
    assert_eq!(map.len(), 16);
    for (i, c) in map.iter().enumerate() {
        assert_eq!(c.altitude, i as i32);
        assert_eq!(c.temperature, -(i as i32));
        assert_eq!(c.direction_x, 0);
        assert_eq!(c.smell_zombie, 0);
    }
    assert_eq!((map[0].edge_distance, map[0].neighbors_count), (0, 3));
    assert_eq!((map[1].edge_distance, map[1].neighbors_count), (0, 5));
    assert_eq!((map[4].edge_distance, map[4].neighbors_count), (0, 5));
    assert_eq!((map[5].edge_distance, map[5].neighbors_count), (1, 8));
    assert_eq!((map[15].edge_distance, map[15].neighbors_count), (1, 3));
    assert_eq!((map[3].edge_distance, map[3].neighbors_count), (0, 3));
    assert_eq!((map[12].edge_distance, map[12].neighbors_count), (0, 3));
    assert_eq!((map[7].edge_distance, map[7].neighbors_count), (1, 5));
    assert_eq!((map[13].edge_distance, map[13].neighbors_count), (1, 5));
    assert_eq!((map[10].edge_distance, map[10].neighbors_count), (2, 8));
}

#[test]
fn seeded_occupants_are_consistent_and_drawn() {
    let n = 64 * 64;
    let zeros = vec![0i32; n];
    let map = generate_map(64, 64, &zeros, &zeros);
    let mut occupied = 0;
    for c in &map {
        match c.stored_status {
            0 => assert_eq!(c.population, 0),
            1 => assert!((50..100).contains(&c.population)),
            2 => assert!((75..200).contains(&c.population)),
            s => panic!("unknown status {s}"),
        }
        if !c.is_empty() {
            occupied += 1;
        }
    }
    assert!(occupied > 0);
    assert!(occupied < n);
}

#[test]
fn empty_board_is_accepted() {
    let map = generate_map(0, 5, &Vec::new(), &Vec::new());
    assert!(map.is_empty());
    let mut e = ComputeEngine::new(0, 5, MS, map).unwrap();
    assert_eq!(e.pass(MS, KernelStatus::Ready), Ok(None));
    assert!(e.submit_edit(0, 0, CellState::empty()).is_err());
}

#[test]
fn default_cell_is_empty() {
    let c = CellState::default();
    assert!(c.is_empty());
    assert_eq!(c, CellState::empty());
}

#[test]
fn workgroups_cover_the_board() {
    assert_eq!(workgroup_count(0), 0);
    assert_eq!(workgroup_count(1), 1);
    assert_eq!(workgroup_count(8), 1);
    assert_eq!(workgroup_count(9), 2);
    assert_eq!(workgroup_count(1600), 200);
    let mut e = ready_engine(9, 17, MS);
    let d = e.pass(MS, KernelStatus::Ready).unwrap().unwrap();
    assert_eq!((d.workgroups_x, d.workgroups_y), (2, 3));
}

#[test]
fn occupant_follows_drawn_status() {
    assert_eq!(occupant_of(0, 0), (0, 0));
    assert_eq!(occupant_of(1, 73), (1, 73));
    assert_eq!(occupant_of(2, 150), (2, 150));
    assert_eq!(occupant_of(0, 60), (0, 0));
    assert_eq!(occupant_of(7, 60), (0, 0));
}

#[test]
fn single_column_board_counts_both_borders() {
    let zeros = vec![0i32; 3];
    let map = generate_map(1, 3, &zeros, &zeros);
    assert_eq!(map[0].neighbors_count, 3);
    assert_eq!(map[1].neighbors_count, 5);
    assert_eq!(map[2].neighbors_count, 3);
}
