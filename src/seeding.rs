use rand::Rng;
use vstd::prelude::*;

use crate::cell::{CellState, STATUS_EMPTY, STATUS_HUMAN, STATUS_ZOMBIE};

verus! {

/// Relies on rand's `Rng::random_range` on the thread-local generator
/// (`rand::rng()`): a uniformly drawn value of the half-open range `lo..hi`,
/// which it panics on only when the range is empty.
#[verifier::external_body]
fn random_in_range(lo: u32, hi: u32) -> (r: u32)
    requires
        lo < hi,
    ensures
        lo <= r < hi,
{
    rand::rng().random_range(lo..hi)
}

pub open spec fn min_int(a: int, b: int) -> int {
    if a < b { a } else { b }
}

/// Distance of column `x`, row `y` to the board's border, as the kernel reads it.
pub open spec fn edge_distance_of(x: int, y: int, width: int, height: int) -> int {
    min_int(min_int(width - x, x), min_int(height - y, y))
}

/// Neighbour count recorded for column `x`, row `y`: three on a corner, five on
/// another border cell, eight inside.
pub open spec fn neighbors_count_of(x: int, y: int, width: int, height: int) -> int {
    let on_x_edge = x == 0 || x == width - 1;
    let on_y_edge = y == 0 || y == height - 1;
    if on_x_edge && on_y_edge {
        3
    } else if on_x_edge || on_y_edge {
        5
    } else {
        8
    }
}

/// The occupant of a seeded cell: empty with no population, humans with 50 to
/// 99, or zombies with 75 to 199.
pub open spec fn seeded_occupant(c: CellState) -> bool {
    ||| c.stored_status == STATUS_EMPTY && c.population == 0
    ||| c.stored_status == STATUS_HUMAN && 50 <= c.population < 100
    ||| c.stored_status == STATUS_ZOMBIE && 75 <= c.population < 200
}

/// Cell `i` of a seeded `width`-wide board, with its terrain and occupant.
pub open spec fn seeded_cell(
    c: CellState,
    i: int,
    width: int,
    height: int,
    altitude: i32,
    temperature: i32,
) -> bool {
    let x = i % width;
    let y = i / width;
    &&& c.edge_distance == edge_distance_of(x, y, width, height)
    &&& c.neighbors_count == neighbors_count_of(x, y, width, height)
    &&& c.altitude == altitude
    &&& c.temperature == temperature
    &&& seeded_occupant(c)
    &&& c.direction_x == 0 && c.direction_y == 0
    &&& c.second_direction_x == 0 && c.second_direction_y == 0
    &&& c.smell_human == 0 && c.smell_zombie == 0
}

/// Status and population of a cell whose drawn status is `status` and whose
/// drawn population is `population`: humans and zombies keep the population,
/// any other status leaves the cell empty with nobody in it.
pub open spec fn occupant_spec(status: u32, population: u32) -> (u32, i32) {
    if status == STATUS_HUMAN {
        (STATUS_HUMAN, population as i32)
    } else if status == STATUS_ZOMBIE {
        (STATUS_ZOMBIE, population as i32)
    } else {
        (STATUS_EMPTY, 0i32)
    }
}

/// The occupant that a drawn status and population give.
pub fn occupant_of(status: u32, population: u32) -> (r: (u32, i32))
    requires
        population <= i32::MAX,
    ensures
        r == occupant_spec(status, population),
{
    if status == STATUS_HUMAN {
        (STATUS_HUMAN, population as i32)
    } else if status == STATUS_ZOMBIE {
        (STATUS_ZOMBIE, population as i32)
    } else {
        (STATUS_EMPTY, 0)
    }
}

/// Draws the occupant of one cell: a status among empty, humans and zombies,
/// then a population in the range of the drawn kind (none for an empty cell).
fn draw_occupant() -> (r: (u32, i32))
    ensures
        exists|status: u32, population: u32|
            status < 3 && (status == STATUS_HUMAN ==> 50 <= population < 100) && (status
                == STATUS_ZOMBIE ==> 75 <= population < 200) && r == occupant_spec(
                status,
                population,
            ),
        seeded_occupant_pair(r),
{
    let status = random_in_range(0, 3);
    let population = if status == STATUS_HUMAN {
        random_in_range(50, 100)
    } else if status == STATUS_ZOMBIE {
        random_in_range(75, 200)
    } else {
        0
    };
    occupant_of(status, population)
}

pub open spec fn seeded_occupant_pair(r: (u32, i32)) -> bool {
    ||| r.0 == STATUS_EMPTY && r.1 == 0
    ||| r.0 == STATUS_HUMAN && 50 <= r.1 < 100
    ||| r.0 == STATUS_ZOMBIE && 75 <= r.1 < 200
}

/// Builds the initial board of `width` by `height` cells, row by row, from the
/// terrain's altitude and temperature of each cell, drawing each occupant at
/// random.
pub fn generate_map(width: u32, height: u32, altitude: &Vec<i32>, temperature: &Vec<i32>) -> (r:
    Vec<CellState>)
    requires
        width <= i32::MAX,
        height <= i32::MAX,
        altitude@.len() == width * height,
        temperature@.len() == width * height,
    ensures
        r@.len() == width * height,
        forall|i: int|
            0 <= i < r@.len() ==> #[trigger] r@[i].wf() && seeded_cell(
                r@[i],
                i,
                width as int,
                height as int,
                altitude@[i],
                temperature@[i],
            ),
{
    let n = altitude.len();
    let w = width as usize;
    let mut map: Vec<CellState> = Vec::with_capacity(n);
    let mut i: usize = 0;
    while i < n
        invariant
            n == altitude@.len(),
            n == width * height,
            w == width,
            width <= i32::MAX,
            height <= i32::MAX,
            temperature@.len() == n,
            i <= n,
            map@.len() == i,
            forall|j: int|
                0 <= j < i ==> #[trigger] map@[j].wf() && seeded_cell(
                    map@[j],
                    j,
                    width as int,
                    height as int,
                    altitude@[j],
                    temperature@[j],
                ),
        decreases n - i,
    {
        assert(w > 0) by (nonlinear_arith)
            requires
                i < n,
                n == w * height,
        ;
        let x = i % w;
        let y = i / w;
        assert(y < height) by (nonlinear_arith)
            requires
                i < n,
                n == w * height,
                y == i / w,
                w > 0,
        ;
        let xi = x as i32;
        let yi = y as i32;
        let wi = width as i32;
        let hi = height as i32;
        let x_edge_distance = if wi - xi < xi {
            wi - xi
        } else {
            xi
        };
        let y_edge_distance = if hi - yi < yi {
            hi - yi
        } else {
            yi
        };
        let edge_distance = if x_edge_distance < y_edge_distance {
            x_edge_distance
        } else {
            y_edge_distance
        };
        let on_x_edge = x == 0 || x == w - 1;
        let on_y_edge = y == 0 || y == height as usize - 1;
        let neighbors_count: i32 = if on_x_edge && on_y_edge {
            3
        } else if on_x_edge || on_y_edge {
            5
        } else {
            8
        };
        let (status, population) = draw_occupant();
        let cell = CellState {
            edge_distance,
            neighbors_count,
            altitude: altitude[i],
            temperature: temperature[i],
            population,
            stored_status: status,
            ..CellState::empty()
        };
        map.push(cell);
        i = i + 1;
    }
    map
}

} // verus!
