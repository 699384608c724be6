//! The parent forest that the address table describes.
//!
//! A table is a sequence of port records, one per address: the record at
//! index `i` (its *slot*) belongs to address `i + 1`. A slot is live when its
//! record is not empty. A live slot points at its parent's slot, or at `-1`
//! when the device hangs directly off the root port (parent address 0).

use crate::types::PortInfo;
use vstd::prelude::*;

verus! {

/// Slot `i` exists in the table and holds a device.
pub open spec fn live_slot(t: Seq<PortInfo>, i: int) -> bool {
    0 <= i < t.len() && !t[i].empty()
}

/// The slot of the parent of the device in slot `i`; `-1` is the root port.
pub open spec fn up(t: Seq<PortInfo>, i: int) -> int {
    t[i].parent() - 1
}

/// Slot `i` holds a device attached directly to the root port.
pub open spec fn is_root_slot(t: Seq<PortInfo>, i: int) -> bool {
    live_slot(t, i) && up(t, i) == -1
}

/// Every live slot names a parent address that the table has a slot for.
pub open spec fn links_in_table(t: Seq<PortInfo>) -> bool {
    forall|i: int| #[trigger] live_slot(t, i) ==> up(t, i) < t.len()
}

/// Slot `i` has a parent link to another slot of the table.
pub open spec fn has_link(t: Seq<PortInfo>, i: int) -> bool {
    live_slot(t, i) && 0 <= up(t, i) < t.len()
}

/// `u` and `v` are the two ends of the parent link of a slot below `k`.
pub open spec fn adjacent(t: Seq<PortInfo>, k: int, u: int, v: int) -> bool {
    ||| (u < k && has_link(t, u) && up(t, u) == v)
    ||| (v < k && has_link(t, v) && up(t, v) == u)
}

/// Step `j` of the walk `w` follows a parent link, in either direction.
pub open spec fn step_ok(t: Seq<PortInfo>, k: int, w: Seq<int>, j: int) -> bool {
    adjacent(t, k, w[j], w[j + 1])
}

/// `w` is a walk over slots of the table along parent links of slots below `k`.
pub open spec fn is_walk(t: Seq<PortInfo>, k: int, w: Seq<int>) -> bool {
    &&& w.len() > 0
    &&& 0 <= w[0] < t.len()
    &&& forall|j: int| 0 <= j < w.len() - 1 ==> #[trigger] step_ok(t, k, w, j)
}

/// Slots `x` and `y` are joined by a walk along parent links of slots below `k`.
pub open spec fn joined_upto(t: Seq<PortInfo>, k: int, x: int, y: int) -> bool {
    exists|w: Seq<int>| #[trigger] is_walk(t, k, w) && w.first() == x && w.last() == y
}

/// Slots `x` and `y` lie in the same connected component of the table's
/// parent links, taken without direction.
pub open spec fn joined(t: Seq<PortInfo>, x: int, y: int) -> bool {
    joined_upto(t, t.len() as int, x, y)
}

/// Walking up from slot `i` through live slots arrives at slot `n` within
/// `fuel` steps. Slot `n` itself counts when it is live.
pub open spec fn descends(t: Seq<PortInfo>, i: int, n: int, fuel: nat) -> bool
    decreases fuel,
{
    live_slot(t, i) && (i == n || (fuel > 0 && descends(t, up(t, i), n, (fuel - 1) as nat)))
}

/// Slot `i` is slot `n` or one of its transitive descendants.
pub open spec fn in_subtree(t: Seq<PortInfo>, n: int, i: int) -> bool {
    exists|fuel: nat| descends(t, i, n, fuel)
}

/// Walking up from slot `i` through live slots arrives at the root port
/// within `fuel` steps.
pub open spec fn climbs(t: Seq<PortInfo>, i: int, fuel: nat) -> bool
    decreases fuel,
{
    live_slot(t, i) && (up(t, i) == -1 || (fuel > 0 && climbs(t, up(t, i), (fuel - 1) as nat)))
}

/// Slot `i` hangs, through live slots only, off the root port.
pub open spec fn reaches_root_port(t: Seq<PortInfo>, i: int) -> bool {
    exists|fuel: nat| climbs(t, i, fuel)
}

/// The table is a forest rooted at the root port: every live slot reaches the
/// root port through live slots.
pub open spec fn rooted(t: Seq<PortInfo>) -> bool {
    forall|i: int| #[trigger] live_slot(t, i) ==> reaches_root_port(t, i)
}

/// No live slot is its own proper ancestor.
pub open spec fn acyclic(t: Seq<PortInfo>) -> bool {
    forall|i: int| #[trigger] live_slot(t, i) ==> !in_subtree(t, i, up(t, i))
}

/// At most one device hangs directly off the root port.
pub open spec fn single_root(t: Seq<PortInfo>) -> bool {
    forall|i: int, j: int| #[trigger] is_root_slot(t, i) && #[trigger] is_root_slot(t, j) ==> i == j
}

/// `r` is the lowest slot that holds a device attached directly to the root port.
pub open spec fn is_first_root(t: Seq<PortInfo>, r: int) -> bool {
    is_root_slot(t, r) && forall|j: int| 0 <= j < r ==> !#[trigger] is_root_slot(t, j)
}

/// Slot `i` holds a device that has lost its connection to the root port:
/// no walk joins `i` to the first device on the root port. Where no device
/// is left on the root port, that holds of every device.
pub open spec fn cut_off(t: Seq<PortInfo>, i: int) -> bool {
    live_slot(t, i) && forall|r: int| #[trigger] is_first_root(t, r) ==> !joined(t, i, r)
}

/// `after` is `before` with some slots emptied and nothing else changed.
pub open spec fn only_freed(before: Seq<PortInfo>, after: Seq<PortInfo>) -> bool {
    &&& after.len() == before.len()
    &&& forall|i: int| 0 <= i < before.len() ==> (#[trigger] after[i]) == before[i] || after[i].empty()
}

// ---------------------------------------------------------------------------
// Walks
// ---------------------------------------------------------------------------

/// Every slot on a walk lies in the table.
pub proof fn lemma_walk_in_table(t: Seq<PortInfo>, k: int, w: Seq<int>, j: int)
    requires
        is_walk(t, k, w),
        0 <= j < w.len(),
    ensures
        0 <= w[j] < t.len(),
    decreases j,
{
    if j > 0 {
        lemma_walk_in_table(t, k, w, j - 1);
        assert(step_ok(t, k, w, j - 1));
    }
}

/// A slot is joined to itself.
pub proof fn lemma_joined_refl(t: Seq<PortInfo>, k: int, x: int)
    requires
        0 <= x < t.len(),
    ensures
        joined_upto(t, k, x, x),
{
    let w = seq![x];
    assert(is_walk(t, k, w));
    assert(w.first() == x && w.last() == x);
}

/// The two ends of a link are joined.
pub proof fn lemma_joined_step(t: Seq<PortInfo>, k: int, x: int, y: int)
    requires
        adjacent(t, k, x, y),
    ensures
        joined_upto(t, k, x, y),
{
    let w = seq![x, y];
    assert(step_ok(t, k, w, 0));
    assert(is_walk(t, k, w));
    assert(w.first() == x && w.last() == y);
}

/// Walks compose.
pub proof fn lemma_joined_trans(t: Seq<PortInfo>, k: int, x: int, y: int, z: int)
    requires
        joined_upto(t, k, x, y),
        joined_upto(t, k, y, z),
    ensures
        joined_upto(t, k, x, z),
{
    let w1 = choose|w: Seq<int>| #[trigger] is_walk(t, k, w) && w.first() == x && w.last() == y;
    let w2 = choose|w: Seq<int>| #[trigger] is_walk(t, k, w) && w.first() == y && w.last() == z;
    let w = w1 + w2.drop_first();
    assert forall|j: int| 0 <= j < w.len() - 1 implies #[trigger] step_ok(t, k, w, j) by {
        if j < w1.len() - 1 {
            assert(step_ok(t, k, w1, j));
        } else {
            let j2 = j - (w1.len() - 1);
            assert(step_ok(t, k, w2, j2));
            assert(w[j + 1] == w2[j2 + 1]);
            if j == w1.len() - 1 {
                assert(w[j] == w1.last());
            } else {
                assert(w[j] == w2[j2]);
            }
        }
    }
    assert(is_walk(t, k, w));
    assert(w.first() == x);
    assert(w.last() == z) by {
        if w2.len() == 1 {
            assert(w =~= w1);
        }
    }
}

/// Being joined is symmetric.
pub proof fn lemma_joined_sym(t: Seq<PortInfo>, k: int, x: int, y: int)
    requires
        joined_upto(t, k, x, y),
    ensures
        joined_upto(t, k, y, x),
{
    let w1 = choose|w: Seq<int>| #[trigger] is_walk(t, k, w) && w.first() == x && w.last() == y;
    let w = w1.reverse();
    assert forall|j: int| 0 <= j < w.len() - 1 implies #[trigger] step_ok(t, k, w, j) by {
        let j1 = w1.len() - 2 - j;
        assert(step_ok(t, k, w1, j1));
        assert(w[j] == w1[j1 + 1]);
        assert(w[j + 1] == w1[j1]);
    }
    lemma_walk_in_table(t, k, w1, w1.len() - 1);
    assert(is_walk(t, k, w));
    assert(w.first() == y && w.last() == x);
}

/// More links can only join more slots.
pub proof fn lemma_joined_mono(t: Seq<PortInfo>, k: int, k2: int, x: int, y: int)
    requires
        joined_upto(t, k, x, y),
        k <= k2,
    ensures
        joined_upto(t, k2, x, y),
{
    let w = choose|w: Seq<int>| #[trigger] is_walk(t, k, w) && w.first() == x && w.last() == y;
    assert forall|j: int| 0 <= j < w.len() - 1 implies #[trigger] step_ok(t, k2, w, j) by {
        assert(step_ok(t, k, w, j));
    }
    assert(is_walk(t, k2, w));
}

/// A slot without a link adds nothing to what is joined.
pub proof fn lemma_joined_skip(t: Seq<PortInfo>, k: int, x: int, y: int)
    requires
        joined_upto(t, k + 1, x, y),
        !has_link(t, k),
    ensures
        joined_upto(t, k, x, y),
{
    let w = choose|w: Seq<int>| #[trigger] is_walk(t, k + 1, w) && w.first() == x && w.last() == y;
    assert forall|j: int| 0 <= j < w.len() - 1 implies #[trigger] step_ok(t, k, w, j) by {
        assert(step_ok(t, k + 1, w, j));
    }
    assert(is_walk(t, k, w));
}

/// A property that every link carries from one end to the other holds at the
/// end of a walk if it holds at its start.
pub proof fn lemma_walk_carries(
    t: Seq<PortInfo>,
    k: int,
    w: Seq<int>,
    s: spec_fn(int) -> bool,
    j: int,
)
    requires
        is_walk(t, k, w),
        forall|u: int, v: int| #[trigger] adjacent(t, k, u, v) && s(u) ==> s(v),
        s(w[0]),
        0 <= j < w.len(),
    ensures
        s(w[j]),
    decreases j,
{
    if j > 0 {
        lemma_walk_carries(t, k, w, s, j - 1);
        assert(step_ok(t, k, w, j - 1));
        assert(adjacent(t, k, w[j - 1], w[j]));
    }
}

/// What is joined shares every property that links carry along.
pub proof fn lemma_joined_carries(
    t: Seq<PortInfo>,
    k: int,
    x: int,
    y: int,
    s: spec_fn(int) -> bool,
)
    requires
        joined_upto(t, k, x, y),
        forall|u: int, v: int| #[trigger] adjacent(t, k, u, v) && s(u) ==> s(v),
        s(x),
    ensures
        s(y),
{
    let w = choose|w: Seq<int>| #[trigger] is_walk(t, k, w) && w.first() == x && w.last() == y;
    lemma_walk_carries(t, k, w, s, w.len() - 1);
}

} // verus!
