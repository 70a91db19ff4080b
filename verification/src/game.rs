//! Game state and the per-tick rules: movement, food, scoring, collisions.
//!
//! One `GameState` owns everything the simulation needs — the body, the two
//! direction slots, the food cell, the score and the two flags. `tick`
//! advances it by one simulation step in the fixed order: apply the pending
//! direction (discarding an exact reversal), move the head through the
//! topology, shift the body rigidly from the pre-move snapshot, settle any
//! deferred growth, then apply the food and collision rules.

use vstd::prelude::*;
use crate::topology::{
    crosses_rim, move_position, opposite, opposite_spec, step_spec, Direction, Face, GridPosition,
    GRID_SIZE,
};
use crate::body::{
    body_contains, lemma_growth_appends_old_tail, lemma_moved_body_cells, lemma_shift_rigidity,
    moved_body,
};
use crate::food::{lemma_free_cell_exists, place_food, CELL_COUNT};

verus! {

/// Points awarded for each food consumption.
pub const REWARD: u32 = 10;

/// Shortest body for which the self-collision check runs. Right after spawn
/// the head cannot yet have looped back onto a trailing segment, so shorter
/// bodies are exempt to avoid false positives tied to the spawn geometry.
pub const SELF_COLLISION_MIN: usize = 5;

/// The direction a tick actually applies: the buffered `pend` wins unless it
/// is the exact opposite of `cur`, which would fold the head back onto the
/// neck; such a reversal is discarded and `cur` stays in force.
pub open spec fn effective_direction(cur: Direction, pend: Direction) -> Direction {
    if pend == opposite_spec(cur) {
        cur
    } else {
        pend
    }
}

/// A body collides with itself when it is long enough for the check and some
/// trailing segment shares the head's cell.
pub open spec fn self_collision(b: Seq<GridPosition>) -> bool {
    b.len() >= SELF_COLLISION_MIN && exists|i: int| 1 <= i < b.len() && #[trigger] b[i] == b[0]
}

/// Head cell at spawn: the middle of the top face.
pub open spec fn start_head() -> GridPosition {
    GridPosition { face: Face::Top, x: (GRID_SIZE / 2) as usize, y: (GRID_SIZE / 2) as usize }
}

/// Body at spawn: the head plus two trailing segments directly below it on
/// the same face, lined up against the initial upward direction.
pub open spec fn start_body() -> Seq<GridPosition> {
    seq![
        start_head(),
        GridPosition { face: Face::Top, x: (GRID_SIZE / 2) as usize, y: (GRID_SIZE / 2 - 1) as usize },
        GridPosition { face: Face::Top, x: (GRID_SIZE / 2) as usize, y: (GRID_SIZE / 2 - 2) as usize },
    ]
}

/// The whole game state, owned by one holder and advanced strictly
/// sequentially, one `tick` at a time.
pub struct GameState {
    /// Ordered body cells, index 0 the head.
    pub body: Vec<GridPosition>,
    /// Direction applied on the most recent tick.
    pub current_dir: Direction,
    /// Latest buffered input, applied (or discarded) on the next tick.
    pub pending_dir: Direction,
    /// The single food cell.
    pub food: GridPosition,
    /// Points collected so far.
    pub score: u32,
    /// Terminal flag; once set, ticks stop changing the state.
    pub game_over: bool,
    /// A food was consumed and the body grows on the next movement.
    pub grow_pending: bool,
}

impl GameState {
    /// Invariant of every reachable state: the body never shrinks below its
    /// spawn length and, together with at most one deferred growth, never
    /// exceeds the surface's cell count; every cell is on the grid; while
    /// the game runs, the food is never under the body, and the score is
    /// exactly the reward times the number of consumptions (each one either
    /// already grown into a segment, or still pending).
    pub open spec fn wf(self) -> bool {
        &&& self.body@.len() >= 3
        &&& self.body@.len() + (if self.grow_pending {
            1int
        } else {
            0
        }) <= CELL_COUNT
        &&& forall|i: int| 0 <= i < self.body@.len() ==> (#[trigger] self.body@[i]).wf()
        &&& self.food.wf()
        &&& (!self.game_over ==> !self.body@.contains(self.food))
        &&& (!self.game_over ==> self.score == (REWARD as int) * (self.body@.len() - 3) + (
        if self.grow_pending {
            REWARD as int
        } else {
            0
        }))
    }

    /// How one tick transforms a running state. `pre` is the state at the
    /// start of the tick, `post` at its end.
    pub open spec fn tick_rel(pre: GameState, post: GameState) -> bool {
        let dir = effective_direction(pre.current_dir, pre.pending_dir);
        let step = step_spec(pre.body@[0], dir);
        let b1 = moved_body(pre.body@, step.0, pre.grow_pending);
        let ate = step.0 == pre.food;
        let full = b1.len() >= CELL_COUNT;
        &&& post.current_dir == step.1
        &&& post.pending_dir == step.1
        &&& post.body@ == b1
        &&& post.score == pre.score + (if ate {
            REWARD as int
        } else {
            0
        })
        &&& post.grow_pending == (ate && !full)
        &&& post.game_over == (self_collision(b1) || (ate && full))
        &&& (if ate && !full {
            post.food.wf() && !b1.contains(post.food)
        } else {
            post.food == pre.food
        })
    }

    /// Fresh state at game start: body at the spawn cells, both direction
    /// slots pointing up, no score, no flags, and a food somewhere off the
    /// body.
    pub fn new() -> (s: GameState)
        ensures
            s.wf(),
            s.body@ == start_body(),
            s.current_dir == Direction::Up,
            s.pending_dir == Direction::Up,
            s.score == 0,
            !s.game_over,
            !s.grow_pending,
    {
        let mid = GRID_SIZE / 2;
        let mut body: Vec<GridPosition> = Vec::new();
        body.push(GridPosition { face: Face::Top, x: mid, y: mid });
        body.push(GridPosition { face: Face::Top, x: mid, y: mid - 1 });
        body.push(GridPosition { face: Face::Top, x: mid, y: mid - 2 });
        proof {
            assert(body@ =~= start_body());
        }
        let food = match place_food(&body) {
            Some(p) => p,
            None => {
                // Unreachable: three segments cannot cover the surface.
                proof {
                    lemma_free_cell_exists(body@);
                    let w = choose|p: GridPosition| p.wf() && !body@.contains(p);
                    assert(body@.contains(w));
                }
                GridPosition { face: Face::Top, x: 0, y: 0 }
            },
        };
        GameState {
            body,
            current_dir: Direction::Up,
            pending_dir: Direction::Up,
            food,
            score: 0,
            game_over: false,
            grow_pending: false,
        }
    }

    /// Restart: put every owned piece of state back to its startup value.
    pub fn reset(&mut self)
        ensures
            final(self).wf(),
            final(self).body@ == start_body(),
            final(self).current_dir == Direction::Up,
            final(self).pending_dir == Direction::Up,
            final(self).score == 0,
            !final(self).game_over,
            !final(self).grow_pending,
    {
        *self = GameState::new();
    }

    /// Record the latest directional intent. Intents overwrite one another
    /// between ticks — only the last one buffered before a tick matters —
    /// and the reversal rule is applied once per tick, not here.
    pub fn set_pending(&mut self, d: Direction)
        ensures
            final(self).pending_dir == d,
            final(self).body@ == old(self).body@,
            final(self).current_dir == old(self).current_dir,
            final(self).food == old(self).food,
            final(self).score == old(self).score,
            final(self).game_over == old(self).game_over,
            final(self).grow_pending == old(self).grow_pending,
            old(self).wf() ==> final(self).wf(),
    {
        self.pending_dir = d;
    }

    /// Advance the simulation by one step. A finished game is frozen; a
    /// running one changes exactly as [`GameState::tick_rel`] describes.
    pub fn tick(&mut self)
        requires
            old(self).wf(),
        ensures
            final(self).wf(),
            old(self).game_over ==> *final(self) == *old(self),
            !old(self).game_over ==> GameState::tick_rel(*old(self), *final(self)),
    {
        if self.game_over {
            return;
        }
        let ghost pre = *self;
        // Rule 1: apply the buffered direction unless it is an exact reversal.
        let dir = if self.pending_dir == opposite(self.current_dir) {
            self.current_dir
        } else {
            self.pending_dir
        };
        // Head step, possibly through the topology table.
        let head = self.body[0];
        let (new_head, new_dir) = move_position(head, dir);
        self.current_dir = new_dir;
        self.pending_dir = new_dir;
        // Rigid shift from the pre-move snapshot, then deferred growth.
        let grew = self.grow_pending;
        let tail = self.body[self.body.len() - 1];
        let mut nb: Vec<GridPosition> = Vec::new();
        nb.push(new_head);
        let mut i: usize = 1;
        while i < self.body.len()
            invariant
                1 <= i <= self.body@.len(),
                self.body@ == pre.body@,
                pre.body@.len() >= 3,
                nb@.len() == i,
                nb@[0] == new_head,
                forall|j: int| 1 <= j < i ==> nb@[j] == pre.body@[j - 1],
            decreases self.body@.len() - i,
        {
            let seg = self.body[i - 1];
            nb.push(seg);
            i = i + 1;
        }
        if grew {
            nb.push(tail);
        }
        self.body = nb;
        self.grow_pending = false;
        let ghost b1 = moved_body(pre.body@, new_head, grew);
        proof {
            lemma_shift_rigidity(pre.body@, new_head);
            if grew {
                lemma_growth_appends_old_tail(pre.body@, new_head);
            }
            assert(self.body@ =~= b1);
            lemma_moved_body_cells(pre.body@, new_head, grew);
            assert forall|k: int| 0 <= k < self.body@.len() implies (
            #[trigger] self.body@[k]).wf() by {
                assert(b1.contains(b1[k]));
            }
        }
        // Food rules: consumption scores, defers growth, and replaces the
        // food with one placed off the just-moved body.
        if new_head == self.food {
            self.score = self.score + REWARD;
            if self.body.len() < CELL_COUNT {
                self.grow_pending = true;
                match place_food(&self.body) {
                    Some(p) => {
                        self.food = p;
                    },
                    None => {
                        proof {
                            lemma_free_cell_exists(self.body@);
                            let w = choose|p: GridPosition| p.wf() && !self.body@.contains(p);
                            assert(self.body@.contains(w));
                        }
                    },
                }
            } else {
                // The body covers the whole surface: no cell is left for a
                // food, so the hunt is over.
                self.game_over = true;
            }
        }
        // Self collision: an overlap of the head with a trailing segment
        // ends the game.
        if check_self_collision(&self.body) {
            self.game_over = true;
        }
    }

    /// The head's cell.
    pub fn head(&self) -> (r: GridPosition)
        requires
            self.body@.len() >= 1,
        ensures
            r == self.body@[0],
    {
        self.body[0]
    }

    /// Number of body segments.
    pub fn body_len(&self) -> (r: usize)
        ensures
            r == self.body@.len(),
    {
        self.body.len()
    }

    /// The cell of the segment at index `i` (0 is the head).
    pub fn segment(&self, i: usize) -> (r: GridPosition)
        requires
            i < self.body@.len(),
        ensures
            r == self.body@[i as int],
    {
        self.body[i]
    }

    /// Whether the cell `p` is covered by any body segment.
    pub fn occupies(&self, p: GridPosition) -> (r: bool)
        ensures
            r == self.body@.contains(p),
    {
        body_contains(&self.body, p)
    }
}

/// Does the head of `body` share a cell with a trailing segment? Bodies
/// shorter than [`SELF_COLLISION_MIN`] are never reported as colliding.
pub fn check_self_collision(body: &Vec<GridPosition>) -> (r: bool)
    requires
        body@.len() >= 1,
    ensures
        r == self_collision(body@),
{
    if body.len() < SELF_COLLISION_MIN {
        return false;
    }
    let head = body[0];
    let mut i: usize = 1;
    while i < body.len()
        invariant
            1 <= i <= body@.len(),
            body@.len() >= SELF_COLLISION_MIN,
            head == body@[0],
            forall|j: int| 1 <= j < i ==> #[trigger] body@[j] != body@[0],
        decreases body@.len() - i,
    {
        if body[i] == head {
            return true;
        }
        i = i + 1;
    }
    false
}

/// An exact reversal is never applied: buffering the opposite of the current
/// direction leaves the tick moving in the current direction, and the
/// direction only changes as the effect of crossing a rim.
pub proof fn lemma_no_reversal(pre: GameState, post: GameState)
    requires
        pre.body@.len() >= 1,
        pre.pending_dir == opposite_spec(pre.current_dir),
        GameState::tick_rel(pre, post),
    ensures
        post.current_dir == step_spec(pre.body@[0], pre.current_dir).1,
        !crosses_rim(pre.body@[0], pre.current_dir) ==> post.current_dir == pre.current_dir,
{
}

/// Rigidity: a tick with no growth pending keeps the body's length, and
/// every trailing segment takes exactly its predecessor's pre-tick cell.
pub proof fn lemma_tick_rigidity(pre: GameState, post: GameState)
    requires
        pre.body@.len() >= 1,
        !pre.grow_pending,
        GameState::tick_rel(pre, post),
    ensures
        post.body@.len() == pre.body@.len(),
        forall|i: int| 1 <= i < pre.body@.len() ==> #[trigger] post.body@[i] == pre.body@[i - 1],
{
    let dir = effective_direction(pre.current_dir, pre.pending_dir);
    let step = step_spec(pre.body@[0], dir);
    lemma_shift_rigidity(pre.body@, step.0);
}

/// Growth: a tick with a consumption pending adds exactly one segment, at
/// the cell the old tail occupied before the tick; the rest shifts rigidly,
/// and the flag comes out cleared unless the moved head lands on the food,
/// which is a new same-tick consumption deferring one more growth.
pub proof fn lemma_tick_growth(pre: GameState, post: GameState)
    requires
        pre.body@.len() >= 1,
        pre.grow_pending,
        GameState::tick_rel(pre, post),
    ensures
        post.body@.len() == pre.body@.len() + 1,
        post.body@[pre.body@.len() as int] == pre.body@.last(),
        forall|i: int| 1 <= i < pre.body@.len() ==> #[trigger] post.body@[i] == pre.body@[i - 1],
        step_spec(pre.body@[0], effective_direction(pre.current_dir, pre.pending_dir)).0
            != pre.food ==> !post.grow_pending,
{
    let dir = effective_direction(pre.current_dir, pre.pending_dir);
    let step = step_spec(pre.body@[0], dir);
    lemma_growth_appends_old_tail(pre.body@, step.0);
}

} // verus!
