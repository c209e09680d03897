//! The route a negative acknowledgement takes back toward a packet's sender.
use vstd::prelude::*;

use crate::packet::{reversed, NodeId};

verus! {

/// The route with the cursor's entry overwritten by the current holder `id`
/// (left as it is when the cursor is past its end).
pub open spec fn mark_holder(hops: Seq<NodeId>, hop_index: int, id: NodeId) -> Seq<NodeId> {
    if 0 <= hop_index < hops.len() {
        hops.update(hop_index, id)
    } else {
        hops
    }
}

/// `i` is the first position of `id` in `s`.
pub open spec fn is_first_position(s: Seq<NodeId>, id: NodeId, i: int) -> bool {
    &&& 0 <= i < s.len()
    &&& s[i] == id
    &&& forall|j: int| 0 <= j < i ==> s[j] != id
}

/// The first position of `id` in `s`, or 0 where `id` does not occur.
pub open spec fn first_position(s: Seq<NodeId>, id: NodeId) -> int {
    if exists|i: int| is_first_position(s, id, i) {
        choose|i: int| is_first_position(s, id, i)
    } else {
        0
    }
}

/// The route back from holder `id` toward the sender: the visited part of the
/// route, up to and including the holder's position, reversed.
pub open spec fn back_route(hops: Seq<NodeId>, hop_index: int, id: NodeId) -> Seq<NodeId> {
    let marked = mark_holder(hops, hop_index, id);
    if marked.len() == 0 {
        Seq::empty()
    } else {
        reversed(marked.subrange(0, first_position(marked, id) + 1))
    }
}

/// The first position is the only index that satisfies [`is_first_position`].
pub proof fn lemma_first_position_unique(s: Seq<NodeId>, id: NodeId, i: int)
    requires
        is_first_position(s, id, i),
    ensures
        first_position(s, id) == i,
{
    let c = choose|k: int| is_first_position(s, id, k);
    assert(is_first_position(s, id, c));
    if c < i {
        assert(s[c] != id);
    } else if i < c {
        assert(s[i] != id);
    }
}

/// Computes [`back_route`] for the route `hops` held at cursor `hop_index` by `id`.
pub fn back_route_of(hops: &Vec<NodeId>, hop_index: usize, id: NodeId) -> (r: Vec<NodeId>)
    ensures
        r@ == back_route(hops@, hop_index as int, id),
{
    let n = hops.len();
    let ghost marked = mark_holder(hops@, hop_index as int, id);
    if n == 0 {
        let r: Vec<NodeId> = Vec::new();
        assert(r@ =~= back_route(hops@, hop_index as int, id));
        return r;
    }
    // first position of the holder once the cursor's entry names it
    let mut pos: usize = 0;
    let mut found = false;
    let mut i: usize = 0;
    while i < n
        invariant_except_break
            i <= n == hops@.len() == marked.len(),
            !found,
            pos == 0,
            forall|j: int| 0 <= j < i ==> marked[j] != id,
        invariant
            0 < n == hops@.len() == marked.len(),
            marked == mark_holder(hops@, hop_index as int, id),
        ensures
            pos < n,
            found ==> is_first_position(marked, id, pos as int),
            !found ==> pos == 0,
            !found ==> forall|j: int| 0 <= j < n ==> marked[j] != id,
        decreases n - i,
    {
        if i == hop_index || hops[i] == id {
            pos = i;
            found = true;
            break;
        }
        i = i + 1;
    }
    proof {
        if found {
            lemma_first_position_unique(marked, id, pos as int);
        } else {
            assert(!exists|k: int| is_first_position(marked, id, k));
        }
    }
    let end = pos + 1;
    let mut r: Vec<NodeId> = Vec::new();
    let mut k: usize = end;
    while k > 0
        invariant
            k <= end <= n == hops@.len() == marked.len(),
            marked == mark_holder(hops@, hop_index as int, id),
            r@.len() == end - k,
            forall|t: int| 0 <= t < end - k ==> r@[t] == marked[end - 1 - t],
        decreases k,
    {
        k = k - 1;
        let h = if k == hop_index { id } else { hops[k] };
        r.push(h);
    }
    assert(r@ =~= reversed(marked.subrange(0, end as int)));
    assert(r@ =~= back_route(hops@, hop_index as int, id));
    r
}

} // verus!
