//! The food spawner: the single active food item and the placement rule
//! that picks a random unoccupied grid cell.

use vstd::prelude::*;

use rand::Rng;

use crate::config::{Config, Position};

verus! {

/// The single active food item and the cell it occupies.
#[derive(Clone, Copy, Debug, PartialEq, Eq, Structural)]
pub struct Food {
    pub pos: Position,
}

/// The distinct, unrecoverable failure of a completely occupied board: the
/// grid was not large enough relative to the snake's length.
#[derive(Clone, Copy, Debug, PartialEq, Eq, Structural)]
pub enum SpawnError {
    BoardFull,
}

/// No cell appears twice.
pub open spec fn distinct_cells(cells: Seq<Position>) -> bool {
    forall|i: int, j: int| 0 <= i < j < cells.len() ==> cells[i] != cells[j]
}

/// Linear scan for one cell among `cells`.
fn contains_pos(cells: &Vec<Position>, p: &Position) -> (b: bool)
    ensures
        b == cells@.contains(*p),
{
    let n = cells.len();
    let mut i: usize = 0;
    while i < n
        invariant
            n == cells@.len(),
            i <= n,
            forall|j: int| 0 <= j < i ==> cells@[j] != *p,
        decreases n - i,
    {
        if cells[i] == *p {
            assert(cells@.contains(*p));
            return true;
        }
        i = i + 1;
    }
    false
}

/// The candidate set for a food spawn: every grid cell that none of the
/// occupied cells covers, each exactly once.
pub fn spawn_candidates(config: &Config, occupied: &Vec<Position>) -> (c: Vec<Position>)
    requires
        config.wf(),
    ensures
        forall|p: Position|
            #[trigger] c@.contains(p) <==> (config.in_grid(p) && !occupied@.contains(p)),
        distinct_cells(c@),
{
    let mut c: Vec<Position> = Vec::new();
    let mut x: i32 = 0;
    while x < config.grid_size_x
        invariant
            config.wf(),
            0 <= x <= config.grid_size_x,
            forall|p: Position|
                #[trigger] c@.contains(p) <==> (config.in_grid(p) && p.x < x
                    && !occupied@.contains(p)),
            distinct_cells(c@),
        decreases config.grid_size_x - x,
    {
        let mut y: i32 = 0;
        while y < config.grid_size_y
            invariant
                config.wf(),
                0 <= x < config.grid_size_x,
                0 <= y <= config.grid_size_y,
                forall|p: Position|
                    #[trigger] c@.contains(p) <==> (config.in_grid(p) && (p.x < x || (p.x == x
                        && p.y < y)) && !occupied@.contains(p)),
                distinct_cells(c@),
            decreases config.grid_size_y - y,
        {
            let pos = Position { x, y };
            if !contains_pos(occupied, &pos) {
                let ghost c0 = c@;
                c.push(pos);
                proof {
                    assert(c@[c0.len() as int] == pos);
                    assert(c@.contains(pos));
                    assert forall|p: Position| #[trigger] c@.contains(p) <==> (config.in_grid(p)
                        && (p.x < x || (p.x == x && p.y < y + 1)) && !occupied@.contains(p)) by {
                        if c@.contains(p) {
                            let k = choose|k: int| 0 <= k < c@.len() && c@[k] == p;
                            if k < c0.len() {
                                assert(c0[k] == p);
                                assert(c0.contains(p));
                            } else {
                                assert(p == pos);
                            }
                        }
                        if config.in_grid(p) && (p.x < x || (p.x == x && p.y < y + 1))
                            && !occupied@.contains(p) {
                            if p.x < x || (p.x == x && p.y < y) {
                                assert(c0.contains(p));
                                let k = choose|k: int| 0 <= k < c0.len() && c0[k] == p;
                                assert(c@[k] == p);
                                assert(c@.contains(p));
                            } else {
                                assert(p.x == x && p.y == y);
                                assert(p == pos);
                            }
                        }
                    }
                    assert forall|i: int, j: int| 0 <= i < j < c@.len() implies c@[i] != c@[j] by {
                        if j < c0.len() {
                            assert(c@[i] == c0[i]);
                            assert(c@[j] == c0[j]);
                        } else {
                            assert(c@[j] == pos);
                            assert(c@[i] == c0[i]);
                            assert(c0.contains(c0[i]));
                            // every cell gathered so far lies in the already
                            // enumerated region, which excludes `pos`
                            assert(c0[i].x < x || (c0[i].x == x && c0[i].y < y));
                        }
                    }
                }
            }
            y = y + 1;
        }
        x = x + 1;
    }
    c
}

/// Relies on rand::rng and rand::Rng::random_range: a uniformly random index
/// drawn from `0..n`, which is a nonempty range since `n > 0`.
#[verifier::external_body]
fn pick_index(n: usize) -> (r: usize)
    requires
        n > 0,
    ensures
        r < n,
{
    rand::rng().random_range(0..n)
}

/// Place a food item on a uniformly random grid cell that none of the
/// occupied cells covers, or report the board as full — the unrecoverable
/// configuration in which no free cell is left.
pub fn spawn_food(config: &Config, occupied: &Vec<Position>) -> (r: Result<Food, SpawnError>)
    requires
        config.wf(),
    ensures
        (r is Ok) <==> (exists|p: Position| config.in_grid(p) && !occupied@.contains(p)),
        r matches Ok(f) ==> config.in_grid(f.pos) && !occupied@.contains(f.pos),
        r matches Err(e) ==> e is BoardFull,
{
    let candidates = spawn_candidates(config, occupied);
    if candidates.len() == 0 {
        proof {
            if exists|p: Position| config.in_grid(p) && !occupied@.contains(p) {
                let p = choose|p: Position| config.in_grid(p) && !occupied@.contains(p);
                assert(candidates@.contains(p));
            }
        }
        Err(SpawnError::BoardFull)
    } else {
        let i = pick_index(candidates.len());
        let f = Food { pos: candidates[i] };
        proof {
            assert(candidates@.contains(candidates@[i as int]));
            assert(exists|p: Position| config.in_grid(p) && !occupied@.contains(p));
        }
        Ok(f)
    }
}

} // verus!
