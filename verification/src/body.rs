//! The actor's body: an ordered sequence of cells, head first.
//!
//! Movement is a rigid shift computed from the pre-move snapshot: the head
//! takes the freshly computed cell and every trailing segment adopts the
//! position its predecessor held before the tick. Growth appends one segment
//! at the position the old tail held before the shift; the body never
//! shrinks and is never reordered.

use vstd::prelude::*;
use crate::topology::GridPosition;

verus! {

/// The body after a rigid shift: `new_head` in front, every other segment
/// at its predecessor's previous position, the old tail cell vacated.
pub open spec fn shift_body(b: Seq<GridPosition>, new_head: GridPosition) -> Seq<GridPosition> {
    seq![new_head] + b.drop_last()
}

/// The body after one tick of movement: a rigid shift, plus — when a food
/// consumption is pending — one new segment at the cell the old tail
/// occupied before the shift.
pub open spec fn moved_body(b: Seq<GridPosition>, new_head: GridPosition, grew: bool) -> Seq<
    GridPosition,
> {
    if grew {
        shift_body(b, new_head).push(b.last())
    } else {
        shift_body(b, new_head)
    }
}

/// A shift alone is rigid: the length is unchanged, the head takes the new
/// cell, and each trailing segment sits exactly where its predecessor stood.
pub proof fn lemma_shift_rigidity(b: Seq<GridPosition>, new_head: GridPosition)
    requires
        b.len() >= 1,
    ensures
        shift_body(b, new_head).len() == b.len(),
        shift_body(b, new_head)[0] == new_head,
        forall|i: int| 1 <= i < b.len() ==> #[trigger] shift_body(b, new_head)[i] == b[i - 1],
{
}

/// A growing tick adds exactly one segment, placed at the cell the old tail
/// held before the shift; all other segments move as in a rigid shift.
pub proof fn lemma_growth_appends_old_tail(b: Seq<GridPosition>, new_head: GridPosition)
    requires
        b.len() >= 1,
    ensures
        moved_body(b, new_head, true).len() == b.len() + 1,
        moved_body(b, new_head, true)[0] == new_head,
        forall|i: int| 1 <= i < b.len() ==> #[trigger] moved_body(b, new_head, true)[i] == b[i - 1],
        moved_body(b, new_head, true)[b.len() as int] == b.last(),
{
}

/// Every cell of the moved body is either the new head cell or a cell the
/// body already occupied before the tick.
pub proof fn lemma_moved_body_cells(b: Seq<GridPosition>, new_head: GridPosition, grew: bool)
    requires
        b.len() >= 1,
    ensures
        forall|p: GridPosition|
            #[trigger] moved_body(b, new_head, grew).contains(p) ==> p == new_head || b.contains(p),
{
    assert forall|p: GridPosition|
        #[trigger] moved_body(b, new_head, grew).contains(p) implies p == new_head || b.contains(
        p,
    ) by {
        let m = moved_body(b, new_head, grew);
        let i = choose|i: int| 0 <= i < m.len() && m[i] == p;
        if i >= 1 {
            if i < b.len() {
                assert(b[i - 1] == p);
            } else {
                assert(b[b.len() - 1] == p);
            }
        }
    }
}

/// Occupancy test: is the cell `p` covered by any segment of `body`?
pub fn body_contains(body: &Vec<GridPosition>, p: GridPosition) -> (r: bool)
    ensures
        r == body@.contains(p),
{
    let mut i: usize = 0;
    while i < body.len()
        invariant
            i <= body@.len(),
            forall|j: int| 0 <= j < i ==> body@[j] != p,
        decreases body@.len() - i,
    {
        if body[i] == p {
            return true;
        }
        i = i + 1;
    }
    false
}

} // verus!
