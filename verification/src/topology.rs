//! Positions on the surface of a cube and the fixed topology table.
//!
//! The cube's surface is six `GRID_SIZE x GRID_SIZE` grids, one per face.
//! A cell is addressed as `(face, x, y)` with both coordinates in
//! `[0, GRID_SIZE)`; adjacency between faces exists only through the
//! transition table below. Directions are face-relative: crossing a rim may
//! rotate the local notion of "up", so every transition yields the direction
//! to continue with on the destination face.

use vstd::prelude::*;

verus! {

/// Side length of each face's grid.
pub const GRID_SIZE: usize = 10;

/// Largest valid coordinate on a face.
pub const MAX_COORD: usize = GRID_SIZE - 1;

/// One of the six faces of the cube. The labels carry no ordering; faces
/// relate to one another only through the transition table.
#[derive(Clone, Copy, PartialEq, Eq, Structural, Debug)]
pub enum Face {
    Top,
    Bottom,
    Front,
    Back,
    Left,
    Right,
}

/// A face-relative movement direction, interpreted against the local axes
/// of whichever face an actor currently occupies.
#[derive(Clone, Copy, PartialEq, Eq, Structural, Debug)]
pub enum Direction {
    Up,
    Down,
    Left,
    Right,
}

/// A cell on the cube's surface.
#[derive(Clone, Copy, PartialEq, Eq, Structural, Debug)]
pub struct GridPosition {
    pub face: Face,
    pub x: usize,
    pub y: usize,
}

impl GridPosition {
    /// Both coordinates lie on the face's grid.
    pub open spec fn wf(self) -> bool {
        self.x < GRID_SIZE && self.y < GRID_SIZE
    }
}

/// The direction pointing exactly the other way on the same face.
pub open spec fn opposite_spec(d: Direction) -> Direction {
    match d {
        Direction::Up => Direction::Down,
        Direction::Down => Direction::Up,
        Direction::Left => Direction::Right,
        Direction::Right => Direction::Left,
    }
}

/// Executable twin of [`opposite_spec`].
pub fn opposite(d: Direction) -> (r: Direction)
    ensures
        r == opposite_spec(d),
{
    match d {
        Direction::Up => Direction::Down,
        Direction::Down => Direction::Up,
        Direction::Left => Direction::Right,
        Direction::Right => Direction::Left,
    }
}

/// Destination of an exit through a face's upper rim (`y` grown past the
/// grid), given the offset `x` along that rim.
pub open spec fn transition_up_spec(face: Face, x: usize) -> (GridPosition, Direction) {
    match face {
        Face::Top => (
            GridPosition { face: Face::Back, x: x, y: MAX_COORD },
            Direction::Up,
        ),
        Face::Bottom => (GridPosition { face: Face::Front, x: x, y: 0 }, Direction::Up),
        Face::Front => (GridPosition { face: Face::Top, x: x, y: 0 }, Direction::Up),
        Face::Back => (
            GridPosition { face: Face::Top, x: x, y: MAX_COORD },
            Direction::Down,
        ),
        Face::Left => (GridPosition { face: Face::Top, x: 0, y: x }, Direction::Right),
        Face::Right => (
            GridPosition { face: Face::Top, x: MAX_COORD, y: (MAX_COORD - x) as usize },
            Direction::Left,
        ),
    }
}

/// Destination of an exit through a face's lower rim (`y` below zero),
/// given the offset `x` along that rim.
pub open spec fn transition_down_spec(face: Face, x: usize) -> (GridPosition, Direction) {
    match face {
        Face::Top => (
            GridPosition { face: Face::Front, x: x, y: MAX_COORD },
            Direction::Down,
        ),
        Face::Bottom => (
            GridPosition { face: Face::Back, x: (MAX_COORD - x) as usize, y: 0 },
            Direction::Up,
        ),
        Face::Front => (
            GridPosition { face: Face::Bottom, x: x, y: MAX_COORD },
            Direction::Down,
        ),
        Face::Back => (
            GridPosition { face: Face::Bottom, x: (MAX_COORD - x) as usize, y: 0 },
            Direction::Up,
        ),
        Face::Left => (
            GridPosition { face: Face::Bottom, x: 0, y: (MAX_COORD - x) as usize },
            Direction::Right,
        ),
        Face::Right => (
            GridPosition { face: Face::Bottom, x: MAX_COORD, y: x },
            Direction::Left,
        ),
    }
}

/// Destination of an exit through a face's left rim (`x` below zero),
/// given the offset `y` along that rim.
pub open spec fn transition_left_spec(face: Face, y: usize) -> (GridPosition, Direction) {
    match face {
        Face::Top => (GridPosition { face: Face::Left, x: y, y: MAX_COORD }, Direction::Up),
        Face::Bottom => (
            GridPosition { face: Face::Left, x: (MAX_COORD - y) as usize, y: 0 },
            Direction::Down,
        ),
        Face::Front => (
            GridPosition { face: Face::Left, x: MAX_COORD, y: y },
            Direction::Left,
        ),
        Face::Back => (
            GridPosition { face: Face::Right, x: MAX_COORD, y: y },
            Direction::Left,
        ),
        Face::Left => (
            GridPosition { face: Face::Back, x: MAX_COORD, y: y },
            Direction::Left,
        ),
        Face::Right => (
            GridPosition { face: Face::Front, x: MAX_COORD, y: y },
            Direction::Left,
        ),
    }
}

/// Destination of an exit through a face's right rim (`x` grown past the
/// grid), given the offset `y` along that rim.
pub open spec fn transition_right_spec(face: Face, y: usize) -> (GridPosition, Direction) {
    match face {
        Face::Top => (
            GridPosition { face: Face::Right, x: (MAX_COORD - y) as usize, y: MAX_COORD },
            Direction::Up,
        ),
        Face::Bottom => (GridPosition { face: Face::Right, x: y, y: 0 }, Direction::Down),
        Face::Front => (GridPosition { face: Face::Right, x: 0, y: y }, Direction::Right),
        Face::Back => (GridPosition { face: Face::Left, x: 0, y: y }, Direction::Right),
        Face::Left => (GridPosition { face: Face::Front, x: 0, y: y }, Direction::Right),
        Face::Right => (GridPosition { face: Face::Back, x: 0, y: y }, Direction::Right),
    }
}

/// The whole table, keyed by the rim being crossed. `o` is the offset along
/// that rim: `x` for the upper and lower rims, `y` for the left and right.
pub open spec fn transition_spec(face: Face, edge: Direction, o: usize) -> (GridPosition, Direction) {
    match edge {
        Direction::Up => transition_up_spec(face, o),
        Direction::Down => transition_down_spec(face, o),
        Direction::Left => transition_left_spec(face, o),
        Direction::Right => transition_right_spec(face, o),
    }
}

/// Executable twin of [`transition_up_spec`].
pub fn transition_up(face: Face, x: usize) -> (r: (GridPosition, Direction))
    requires
        x < GRID_SIZE,
    ensures
        r == transition_up_spec(face, x),
        r.0.wf(),
{
    match face {
        Face::Top => (GridPosition { face: Face::Back, x, y: MAX_COORD }, Direction::Up),
        Face::Bottom => (GridPosition { face: Face::Front, x, y: 0 }, Direction::Up),
        Face::Front => (GridPosition { face: Face::Top, x, y: 0 }, Direction::Up),
        Face::Back => (
            GridPosition { face: Face::Top, x, y: MAX_COORD },
            Direction::Down,
        ),
        Face::Left => (GridPosition { face: Face::Top, x: 0, y: x }, Direction::Right),
        Face::Right => (
            GridPosition { face: Face::Top, x: MAX_COORD, y: MAX_COORD - x },
            Direction::Left,
        ),
    }
}

/// Executable twin of [`transition_down_spec`].
pub fn transition_down(face: Face, x: usize) -> (r: (GridPosition, Direction))
    requires
        x < GRID_SIZE,
    ensures
        r == transition_down_spec(face, x),
        r.0.wf(),
{
    match face {
        Face::Top => (GridPosition { face: Face::Front, x, y: MAX_COORD }, Direction::Down),
        Face::Bottom => (
            GridPosition { face: Face::Back, x: MAX_COORD - x, y: 0 },
            Direction::Up,
        ),
        Face::Front => (GridPosition { face: Face::Bottom, x, y: MAX_COORD }, Direction::Down),
        Face::Back => (
            GridPosition { face: Face::Bottom, x: MAX_COORD - x, y: 0 },
            Direction::Up,
        ),
        Face::Left => (
            GridPosition { face: Face::Bottom, x: 0, y: MAX_COORD - x },
            Direction::Right,
        ),
        Face::Right => (
            GridPosition { face: Face::Bottom, x: MAX_COORD, y: x },
            Direction::Left,
        ),
    }
}

/// Executable twin of [`transition_left_spec`].
pub fn transition_left(face: Face, y: usize) -> (r: (GridPosition, Direction))
    requires
        y < GRID_SIZE,
    ensures
        r == transition_left_spec(face, y),
        r.0.wf(),
{
    match face {
        Face::Top => (GridPosition { face: Face::Left, x: y, y: MAX_COORD }, Direction::Up),
        Face::Bottom => (
            GridPosition { face: Face::Left, x: MAX_COORD - y, y: 0 },
            Direction::Down,
        ),
        Face::Front => (GridPosition { face: Face::Left, x: MAX_COORD, y }, Direction::Left),
        Face::Back => (GridPosition { face: Face::Right, x: MAX_COORD, y }, Direction::Left),
        Face::Left => (GridPosition { face: Face::Back, x: MAX_COORD, y }, Direction::Left),
        Face::Right => (GridPosition { face: Face::Front, x: MAX_COORD, y }, Direction::Left),
    }
}

/// Executable twin of [`transition_right_spec`].
pub fn transition_right(face: Face, y: usize) -> (r: (GridPosition, Direction))
    requires
        y < GRID_SIZE,
    ensures
        r == transition_right_spec(face, y),
        r.0.wf(),
{
    match face {
        Face::Top => (
            GridPosition { face: Face::Right, x: MAX_COORD - y, y: MAX_COORD },
            Direction::Up,
        ),
        Face::Bottom => (GridPosition { face: Face::Right, x: y, y: 0 }, Direction::Down),
        Face::Front => (GridPosition { face: Face::Right, x: 0, y }, Direction::Right),
        Face::Back => (GridPosition { face: Face::Left, x: 0, y }, Direction::Right),
        Face::Left => (GridPosition { face: Face::Front, x: 0, y }, Direction::Right),
        Face::Right => (GridPosition { face: Face::Back, x: 0, y }, Direction::Right),
    }
}

/// The cell on face `f` from which an exit through rim `e` at offset `o`
/// departs: the boundary row or column of that rim.
pub open spec fn exit_cell(f: Face, e: Direction, o: usize) -> GridPosition {
    match e {
        Direction::Up => GridPosition { face: f, x: o, y: MAX_COORD },
        Direction::Down => GridPosition { face: f, x: o, y: 0 },
        Direction::Left => GridPosition { face: f, x: 0, y: o },
        Direction::Right => GridPosition { face: f, x: MAX_COORD, y: o },
    }
}

/// The face an exit through rim `e` of face `f` arrives on; the table sends
/// every offset of one rim to the same face.
pub open spec fn destination_face(f: Face, e: Direction) -> Face {
    transition_spec(f, e, 0).0.face
}

/// The rim of `from` whose transition leads onto `back`. Each face's four
/// rims lead to four distinct faces, so for adjacent faces this is the one
/// rim between them.
pub open spec fn return_edge(from: Face, back: Face) -> Direction {
    if destination_face(from, Direction::Up) == back {
        Direction::Up
    } else if destination_face(from, Direction::Down) == back {
        Direction::Down
    } else if destination_face(from, Direction::Left) == back {
        Direction::Left
    } else {
        Direction::Right
    }
}

/// Does the cell `p` lie on rim `e` of its face?
pub open spec fn on_rim(p: GridPosition, e: Direction) -> bool {
    match e {
        Direction::Up => p.y == MAX_COORD,
        Direction::Down => p.y == 0,
        Direction::Left => p.x == 0,
        Direction::Right => p.x == MAX_COORD,
    }
}

/// The offset of a rim cell along its rim: `x` for the upper and lower
/// rims, `y` for the left and right.
pub open spec fn rim_offset(p: GridPosition, e: Direction) -> usize {
    match e {
        Direction::Up => p.x,
        Direction::Down => p.x,
        Direction::Left => p.y,
        Direction::Right => p.y,
    }
}

/// Does one step from `pos` toward `dir` leave the face's grid? Exactly
/// then the topology table applies and the direction may rotate.
pub open spec fn crosses_rim(pos: GridPosition, dir: Direction) -> bool {
    match dir {
        Direction::Up => pos.y + 1 >= GRID_SIZE,
        Direction::Down => pos.y == 0,
        Direction::Left => pos.x == 0,
        Direction::Right => pos.x + 1 >= GRID_SIZE,
    }
}

/// One movement step from `pos` toward `dir`: stay on the face while the
/// target cell is in range, otherwise follow the topology table through the
/// rim being crossed. A single step can leave the range on at most one axis,
/// so exactly one table entry ever applies.
pub open spec fn step_spec(pos: GridPosition, dir: Direction) -> (GridPosition, Direction) {
    match dir {
        Direction::Up => if pos.y + 1 < GRID_SIZE {
            (GridPosition { face: pos.face, x: pos.x, y: (pos.y + 1) as usize }, dir)
        } else {
            transition_up_spec(pos.face, pos.x)
        },
        Direction::Down => if pos.y >= 1 {
            (GridPosition { face: pos.face, x: pos.x, y: (pos.y - 1) as usize }, dir)
        } else {
            transition_down_spec(pos.face, pos.x)
        },
        Direction::Left => if pos.x >= 1 {
            (GridPosition { face: pos.face, x: (pos.x - 1) as usize, y: pos.y }, dir)
        } else {
            transition_left_spec(pos.face, pos.y)
        },
        Direction::Right => if pos.x + 1 < GRID_SIZE {
            (GridPosition { face: pos.face, x: (pos.x + 1) as usize, y: pos.y }, dir)
        } else {
            transition_right_spec(pos.face, pos.y)
        },
    }
}

/// Advance one cell from `pos` toward `dir`, crossing onto the adjacent face
/// when the step leaves the grid. Returns the new cell together with the
/// direction to continue with, which differs from `dir` exactly when the
/// crossed rim rotates the local axes.
pub fn move_position(pos: GridPosition, dir: Direction) -> (r: (GridPosition, Direction))
    requires
        pos.wf(),
    ensures
        r == step_spec(pos, dir),
        r.0.wf(),
{
    match dir {
        Direction::Up => {
            if pos.y + 1 < GRID_SIZE {
                (GridPosition { face: pos.face, x: pos.x, y: pos.y + 1 }, dir)
            } else {
                transition_up(pos.face, pos.x)
            }
        },
        Direction::Down => {
            if pos.y >= 1 {
                (GridPosition { face: pos.face, x: pos.x, y: pos.y - 1 }, dir)
            } else {
                transition_down(pos.face, pos.x)
            }
        },
        Direction::Left => {
            if pos.x >= 1 {
                (GridPosition { face: pos.face, x: pos.x - 1, y: pos.y }, dir)
            } else {
                transition_left(pos.face, pos.y)
            }
        },
        Direction::Right => {
            if pos.x + 1 < GRID_SIZE {
                (GridPosition { face: pos.face, x: pos.x + 1, y: pos.y }, dir)
            } else {
                transition_right(pos.face, pos.y)
            }
        },
    }
}

/// Continuity of the table: for every face `f`, every rim `e` and every
/// offset `o`, exiting through that rim lands on the rim of the destination
/// face that leads back toward `f`, and exiting again through that rim
/// returns exactly to the cell the first exit departed from. The two
/// transitions of each seam are mutual inverses, so the six faces compose
/// into one seamless surface.
pub proof fn lemma_seam_continuity(f: Face, e: Direction, o: usize)
    requires
        o < GRID_SIZE,
    ensures
        ({
            let t1 = transition_spec(f, e, o);
            let back = return_edge(t1.0.face, f);
            on_rim(t1.0, back) && {
                let t2 = transition_spec(t1.0.face, back, rim_offset(t1.0, back));
                t2.0 == exit_cell(f, e, o)
            }
        }),
{
}

/// Orientation consistency around the cube's lateral ring: from any of the
/// four side faces, crossing four rims in the same sideways direction keeps
/// that direction at every crossing and returns to the start face with the
/// rim offset unchanged — a full traversal introduces no mirroring and no
/// drift. For the vertical ring see [`lemma_vertical_cycle`].
pub proof fn lemma_lateral_cycle(f: Face, e: Direction, o: usize)
    requires
        o < GRID_SIZE,
        f == Face::Front || f == Face::Back || f == Face::Left || f == Face::Right,
        e == Direction::Left || e == Direction::Right,
    ensures
        ({
            let t1 = transition_spec(f, e, o);
            let t2 = transition_spec(t1.0.face, e, rim_offset(t1.0, e));
            let t3 = transition_spec(t2.0.face, e, rim_offset(t2.0, e));
            let t4 = transition_spec(t3.0.face, e, rim_offset(t3.0, e));
            &&& t1.1 == e && t2.1 == e && t3.1 == e && t4.1 == e
            &&& t4.0.face == f
            &&& rim_offset(t4.0, e) == o
        }),
{
}

/// Orientation around the cube's vertical ring (top, front, bottom, back),
/// traversed downward: each crossing is chained through the direction the
/// previous one produced, since the back face is traversed upward and the
/// upper top/back seam keeps the offset in both directions (the layout's
/// fixed frame assignment). Four crossings return to the start face with
/// the direction restored and the rim offset mirrored (`o` becomes
/// `MAX_COORD - o`): the ring's holonomy is a single reflection, which a
/// second lap undoes, so eight crossings restore the offset too.
pub proof fn lemma_vertical_cycle(f: Face, e: Direction, o: usize)
    requires
        o < GRID_SIZE,
        (f == Face::Top || f == Face::Front || f == Face::Bottom) && e == Direction::Down || f
            == Face::Back && e == Direction::Up,
    ensures
        ({
            let t1 = transition_spec(f, e, o);
            let t2 = transition_spec(t1.0.face, t1.1, rim_offset(t1.0, t1.1));
            let t3 = transition_spec(t2.0.face, t2.1, rim_offset(t2.0, t2.1));
            let t4 = transition_spec(t3.0.face, t3.1, rim_offset(t3.0, t3.1));
            &&& t4.0.face == f
            &&& t4.1 == e
            &&& rim_offset(t4.0, t4.1) + o == MAX_COORD
        }),
{
}

/// Bounds: for every face, rim and in-range offset, the table's output cell
/// lies inside the destination face's grid, and its output direction is one
/// of the four canonical directions by construction.
pub proof fn lemma_transition_bounds(f: Face, e: Direction, o: usize)
    requires
        o < GRID_SIZE,
    ensures
        transition_spec(f, e, o).0.wf(),
{
}

/// A movement step from a valid cell always yields a valid cell, whether or
/// not it crosses a rim.
pub proof fn lemma_step_bounds(p: GridPosition, d: Direction)
    requires
        p.wf(),
    ensures
        step_spec(p, d).0.wf(),
{
}

} // verus!

