//! Food placement: pick a free cell anywhere on the cube's surface.
//!
//! Placement rejection-samples uniformly random cells; to rule out an
//! unbounded loop the sampling is capped and falls back to a deterministic
//! scan for the first free cell. Only when the body covers every one of the
//! surface's cells is there nothing to return.

use rand::RngExt;
use vstd::prelude::*;
use vstd::seq_lib::*;
use vstd::set_lib::*;
use vstd::relations::injective_on;
use crate::topology::{Face, GridPosition, GRID_SIZE};
use crate::body::body_contains;

verus! {

/// Number of cells on the whole surface: six faces of `GRID_SIZE * GRID_SIZE`.
pub const CELL_COUNT: usize = 6 * GRID_SIZE * GRID_SIZE;

/// How many random samples to try before the deterministic fallback scan.
pub const MAX_PLACE_ATTEMPTS: usize = 1000;

/// Relies on `rand::rng` and `rand::RngExt::random_range`: a draw from the
/// nonempty range `[0, n)` never panics, and every outcome lies below `n`.
/// Nothing more is assumed of the draw; callers must cope with any value.
#[verifier::external_body]
fn random_below(n: usize) -> (r: usize)
    requires
        1 <= n,
    ensures
        r < n,
{
    rand::rng().random_range(0..n)
}

/// A fixed numbering of the six faces, used to enumerate all surface cells.
pub open spec fn face_ordinal(f: Face) -> int {
    match f {
        Face::Top => 0,
        Face::Bottom => 1,
        Face::Front => 2,
        Face::Back => 3,
        Face::Left => 4,
        Face::Right => 5,
    }
}

/// Inverse of [`face_ordinal`] on `[0, 6)`.
pub open spec fn face_of_ordinal(k: int) -> Face {
    if k == 0 {
        Face::Top
    } else if k == 1 {
        Face::Bottom
    } else if k == 2 {
        Face::Front
    } else if k == 3 {
        Face::Back
    } else if k == 4 {
        Face::Left
    } else {
        Face::Right
    }
}

/// The cell at position `i` of the fixed enumeration of all surface cells.
pub open spec fn index_to_cell(i: int) -> GridPosition {
    GridPosition {
        face: face_of_ordinal(i / ((GRID_SIZE * GRID_SIZE) as int)),
        x: ((i % ((GRID_SIZE * GRID_SIZE) as int)) / (GRID_SIZE as int)) as usize,
        y: (i % (GRID_SIZE as int)) as usize,
    }
}

/// Position of the cell `p` in the fixed enumeration.
pub open spec fn cell_index(p: GridPosition) -> int {
    face_ordinal(p.face) * (GRID_SIZE * GRID_SIZE) as int + p.x * (GRID_SIZE as int) + p.y
}

/// Every valid cell sits at its own index of the enumeration.
pub proof fn lemma_cell_index_roundtrip(p: GridPosition)
    requires
        p.wf(),
    ensures
        0 <= cell_index(p) < CELL_COUNT,
        index_to_cell(cell_index(p)) == p,
{
    let fo = face_ordinal(p.face);
    let i = cell_index(p);
    assert(0 <= fo <= 5);
    assert(i == fo * 100 + p.x * 10 + p.y);
    assert(p.x * 10 + p.y < 100);
    assert(i / 100 == fo) by (nonlinear_arith)
        requires
            i == fo * 100 + p.x * 10 + p.y,
            0 <= p.x * 10 + p.y < 100,
            0 <= fo,
    ;
    assert(i % 100 == p.x * 10 + p.y) by (nonlinear_arith)
        requires
            i == fo * 100 + p.x * 10 + p.y,
            0 <= p.x * 10 + p.y < 100,
            0 <= fo,
    ;
    assert((p.x * 10 + p.y) / 10 == p.x) by (nonlinear_arith)
        requires
            0 <= p.y < 10,
            0 <= p.x,
    ;
    assert(i % 10 == p.y) by (nonlinear_arith)
        requires
            i == (fo * 10 + p.x) * 10 + p.y,
            0 <= p.y < 10,
            0 <= fo * 10 + p.x,
    ;
}

/// Every index of the enumeration names a valid cell, and distinct indices
/// name distinct cells.
pub proof fn lemma_index_to_cell_roundtrip(i: int)
    requires
        0 <= i < CELL_COUNT,
    ensures
        index_to_cell(i).wf(),
        cell_index(index_to_cell(i)) == i,
{
    let p = index_to_cell(i);
    assert(0 <= i / 100 <= 5 && 0 <= i % 100 < 100 && 0 <= i % 10 < 10) by (nonlinear_arith)
        requires
            0 <= i < 600,
    ;
    assert(0 <= (i % 100) / 10 < 10) by (nonlinear_arith)
        requires
            0 <= i % 100 < 100,
    ;
    assert(p.x == (i % 100) / 10 && p.y == i % 10);
    assert(face_ordinal(p.face) == i / 100);
    assert((i / 100) * 100 + ((i % 100) / 10) * 10 + i % 10 == i) by (nonlinear_arith)
        requires
            0 <= i,
    ;
}

/// A body of fewer segments than the surface has cells always leaves some
/// valid cell uncovered.
pub proof fn lemma_free_cell_exists(b: Seq<GridPosition>)
    requires
        b.len() < CELL_COUNT,
    ensures
        exists|p: GridPosition| p.wf() && !b.contains(p),
{
    if forall|p: GridPosition| p.wf() ==> #[trigger] b.contains(p) {
        let idx = set_int_range(0, CELL_COUNT as int);
        let to_cell = |j: int| index_to_cell(j);
        let cells = idx.map(to_cell);
        lemma_int_range(0, CELL_COUNT as int);
        assert(injective_on(to_cell, idx)) by {
            assert forall|j1: int, j2: int|
                idx.contains(j1) && idx.contains(j2) && #[trigger] to_cell(j1) == #[trigger] to_cell(
                    j2,
                ) implies j1 == j2 by {
                lemma_index_to_cell_roundtrip(j1);
                lemma_index_to_cell_roundtrip(j2);
            }
        }
        lemma_map_size(idx, cells, to_cell);
        assert(cells.subset_of(b.to_set())) by {
            assert forall|p: GridPosition| #[trigger] cells.contains(p) implies b.to_set().contains(
                p,
            ) by {
                let j = choose|j: int| idx.contains(j) && to_cell(j) == p;
                lemma_index_to_cell_roundtrip(j);
                assert(b.contains(p));
            }
        }
        lemma_len_subset(cells, b.to_set());
        b.lemma_cardinality_of_set();
        assert(false);
    } else {
        let p = choose|p: GridPosition| !(p.wf() ==> b.contains(p));
        assert(p.wf() && !b.contains(p));
    }
}

/// Executable twin of [`face_of_ordinal`] on the valid ordinals.
fn face_from_ordinal(k: usize) -> (r: Face)
    requires
        k < 6,
    ensures
        r == face_of_ordinal(k as int),
{
    if k == 0 {
        Face::Top
    } else if k == 1 {
        Face::Bottom
    } else if k == 2 {
        Face::Front
    } else if k == 3 {
        Face::Back
    } else if k == 4 {
        Face::Left
    } else {
        Face::Right
    }
}

/// Executable twin of [`index_to_cell`] on the valid indices.
fn cell_from_index(i: usize) -> (r: GridPosition)
    requires
        i < CELL_COUNT,
    ensures
        r == index_to_cell(i as int),
        r.wf(),
{
    let per_face = GRID_SIZE * GRID_SIZE;
    let face = face_from_ordinal(i / per_face);
    let rem = i % per_face;
    proof {
        lemma_index_to_cell_roundtrip(i as int);
        assert(i / 100 < 6 && rem == i as int % 100) by (nonlinear_arith)
            requires
                i < 600,
                rem == i % 100,
        ;
    }
    GridPosition { face, x: rem / GRID_SIZE, y: i % GRID_SIZE }
}

/// Pick a cell on any of the six faces that no segment of `exclude` covers.
///
/// Up to [`MAX_PLACE_ATTEMPTS`] cells are sampled at random, each face and
/// each coordinate drawn with equal weight; after that a deterministic scan
/// returns the first free cell of the enumeration. `None` comes back exactly
/// when the body covers the entire surface, so no free cell exists.
pub fn place_food(exclude: &Vec<GridPosition>) -> (r: Option<GridPosition>)
    ensures
        match r {
            Some(p) => p.wf() && !exclude@.contains(p),
            None => forall|p: GridPosition| p.wf() ==> exclude@.contains(p),
        },
{
    let mut tries: usize = 0;
    while tries < MAX_PLACE_ATTEMPTS
        decreases MAX_PLACE_ATTEMPTS - tries,
    {
        let p = GridPosition {
            face: face_from_ordinal(random_below(6)),
            x: random_below(GRID_SIZE),
            y: random_below(GRID_SIZE),
        };
        if !body_contains(exclude, p) {
            return Some(p);
        }
        tries = tries + 1;
    }
    let mut i: usize = 0;
    while i < CELL_COUNT
        invariant
            i <= CELL_COUNT,
            forall|j: int| 0 <= j < i ==> exclude@.contains(#[trigger] index_to_cell(j)),
        decreases CELL_COUNT - i,
    {
        let p = cell_from_index(i);
        if !body_contains(exclude, p) {
            return Some(p);
        }
        i = i + 1;
    }
    proof {
        assert forall|p: GridPosition| p.wf() implies exclude@.contains(p) by {
            lemma_cell_index_roundtrip(p);
            assert(exclude@.contains(index_to_cell(cell_index(p))));
        }
    }
    None
}

} // verus!
