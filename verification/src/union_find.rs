//! Union-find over the slots of a table, with path compression and union by
//! rank.
//!
//! The structure is a pair of arrays: `parent[i]` is the slot that `i` hangs
//! under (itself for a representative) and `rank[i]` bounds the height of the
//! tree below `i`.

use vstd::prelude::*;

verus! {

/// Every parent is a slot, ranks are bounded by the number of slots, and the
/// rank grows strictly from a slot to its parent.
pub open spec fn uf_wf(p: Seq<usize>, r: Seq<usize>) -> bool {
    &&& p.len() == r.len()
    &&& p.len() <= usize::MAX
    &&& forall|i: int|
        #![trigger p[i]]
        0 <= i < p.len() ==> {
            &&& p[i] < p.len()
            &&& r[i] <= p.len()
            &&& r[p[i] as int] <= p.len()
            &&& (p[i] != i ==> r[i] < r[p[i] as int])
        }
}

/// The representative of the set that holds `x`.
pub open spec fn uf_root(p: Seq<usize>, r: Seq<usize>, x: int) -> int
    decreases p.len() - r[x],
    when uf_wf(p, r) && 0 <= x < p.len()
{
    if p[x] == x {
        x
    } else {
        uf_root(p, r, p[x] as int)
    }
}

/// `x` and `y` are in the same set.
pub open spec fn uf_same(p: Seq<usize>, r: Seq<usize>, x: int, y: int) -> bool {
    uf_root(p, r, x) == uf_root(p, r, y)
}

/// A representative is a slot that is its own parent, and ranks do not fall
/// on the way up to it.
pub proof fn lemma_root_props(p: Seq<usize>, r: Seq<usize>, x: int)
    requires
        uf_wf(p, r),
        0 <= x < p.len(),
    ensures
        0 <= uf_root(p, r, x) < p.len(),
        p[uf_root(p, r, x)] == uf_root(p, r, x),
        uf_root(p, r, x) != x ==> r[x] < r[uf_root(p, r, x)],
        uf_root(p, r, uf_root(p, r, x)) == uf_root(p, r, x),
    decreases p.len() - r[x],
{
    if p[x] != x {
        lemma_root_props(p, r, p[x] as int);
    }
}

/// The representative does not depend on the ranks.
pub proof fn lemma_root_rank_free(p: Seq<usize>, r1: Seq<usize>, r2: Seq<usize>, x: int)
    requires
        uf_wf(p, r1),
        uf_wf(p, r2),
        0 <= x < p.len(),
    ensures
        uf_root(p, r1, x) == uf_root(p, r2, x),
    decreases p.len() - r1[x],
{
    if p[x] != x {
        lemma_root_rank_free(p, r1, r2, p[x] as int);
    }
}

proof fn lemma_compress_one(p: Seq<usize>, r: Seq<usize>, x: int, y: int)
    requires
        uf_wf(p, r),
        0 <= x < p.len(),
        0 <= y < p.len(),
        uf_wf(p.update(x, uf_root(p, r, x) as usize), r),
    ensures
        uf_root(p.update(x, uf_root(p, r, x) as usize), r, y) == uf_root(p, r, y),
    decreases p.len() - r[y],
{
    let root = uf_root(p, r, x);
    let p2 = p.update(x, root as usize);
    lemma_root_props(p, r, x);
    if y == x {
        if root != x {
            assert(p2[root] == root);
            assert(uf_root(p2, r, root) == root);
        }
    } else if p[y] != y {
        lemma_compress_one(p, r, x, p[y] as int);
    }
}

/// Hanging a slot directly under its representative changes no set.
pub proof fn lemma_compress(p: Seq<usize>, r: Seq<usize>, x: int)
    requires
        uf_wf(p, r),
        0 <= x < p.len(),
    ensures
        uf_wf(p.update(x, uf_root(p, r, x) as usize), r),
        forall|y: int|
            0 <= y < p.len() ==> #[trigger] uf_root(p.update(x, uf_root(p, r, x) as usize), r, y)
                == uf_root(p, r, y),
{
    let root = uf_root(p, r, x);
    let p2 = p.update(x, root as usize);
    lemma_root_props(p, r, x);
    assert(uf_wf(p2, r)) by {
        assert forall|i: int| 0 <= i < p2.len() implies {
            &&& (#[trigger] p2[i]) < p2.len()
            &&& r[i] <= p2.len()
            &&& r[p2[i] as int] <= p2.len()
            &&& (p2[i] != i ==> r[i] < r[p2[i] as int])
        } by {
            let _ = p[i];
        }
    }
    assert forall|y: int| 0 <= y < p.len() implies #[trigger] uf_root(p2, r, y) == uf_root(
        p,
        r,
        y,
    ) by {
        lemma_compress_one(p, r, x, y);
    }
}

proof fn lemma_link_one(p: Seq<usize>, r: Seq<usize>, a: int, b: int, y: int)
    requires
        uf_wf(p, r),
        uf_wf(p.update(a, b as usize), r),
        0 <= a < p.len(),
        0 <= b < p.len(),
        0 <= y < p.len(),
        p[a] == a,
        p[b] == b,
        a != b,
    ensures
        uf_root(p.update(a, b as usize), r, y) == (if uf_root(p, r, y) == a {
            b
        } else {
            uf_root(p, r, y)
        }),
    decreases p.len() - r[y],
{
    let p2 = p.update(a, b as usize);
    if y == a {
        assert(p2[b] == b);
        assert(uf_root(p2, r, b) == b);
    } else if p[y] != y {
        lemma_link_one(p, r, a, b, p[y] as int);
    }
}

/// Hanging one representative under another of higher rank merges their two
/// sets and changes no other.
pub proof fn lemma_link(p: Seq<usize>, r: Seq<usize>, a: int, b: int)
    requires
        uf_wf(p, r),
        0 <= a < p.len(),
        0 <= b < p.len(),
        p[a] == a,
        p[b] == b,
        a != b,
        r[a] < r[b],
    ensures
        uf_wf(p.update(a, b as usize), r),
        forall|y: int|
            0 <= y < p.len() ==> #[trigger] uf_root(p.update(a, b as usize), r, y) == (if uf_root(
                p,
                r,
                y,
            ) == a {
                b
            } else {
                uf_root(p, r, y)
            }),
{
    let p2 = p.update(a, b as usize);
    assert(uf_wf(p2, r)) by {
        assert forall|i: int| 0 <= i < p2.len() implies {
            &&& (#[trigger] p2[i]) < p2.len()
            &&& r[i] <= p2.len()
            &&& r[p2[i] as int] <= p2.len()
            &&& (p2[i] != i ==> r[i] < r[p2[i] as int])
        } by {
            let _ = p[i];
        }
    }
    assert forall|y: int| 0 <= y < p.len() implies #[trigger] uf_root(p2, r, y) == (if uf_root(
        p,
        r,
        y,
    ) == a {
        b
    } else {
        uf_root(p, r, y)
    }) by {
        lemma_link_one(p, r, a, b, y);
    }
}

/// Raising the rank of a representative changes no set.
pub proof fn lemma_rank_bump(p: Seq<usize>, r: Seq<usize>, a: int)
    requires
        uf_wf(p, r),
        0 <= a < p.len(),
        p[a] == a,
        r[a] < p.len(),
    ensures
        uf_wf(p, r.update(a, (r[a] + 1) as usize)),
        forall|y: int|
            0 <= y < p.len() ==> #[trigger] uf_root(p, r.update(a, (r[a] + 1) as usize), y)
                == uf_root(p, r, y),
{
    let r2 = r.update(a, (r[a] + 1) as usize);
    assert(uf_wf(p, r2)) by {
        assert forall|i: int| 0 <= i < p.len() implies {
            &&& (#[trigger] p[i]) < p.len()
            &&& r2[i] <= p.len()
            &&& r2[p[i] as int] <= p.len()
            &&& (p[i] != i ==> r2[i] < r2[p[i] as int])
        } by {}
    }
    assert forall|y: int| 0 <= y < p.len() implies #[trigger] uf_root(p, r2, y) == uf_root(
        p,
        r,
        y,
    ) by {
        lemma_root_rank_free(p, r2, r, y);
    }
}

/// Finds the representative of the set that holds `x`, and hangs every slot
/// met on the way directly under it.
pub(crate) fn find<const N: usize>(parent: &mut [usize; N], Ghost(rank): Ghost<Seq<usize>>, x: usize) -> (root:
    usize)
    requires
        uf_wf(old(parent)@, rank),
        x < N,
    ensures
        uf_wf(final(parent)@, rank),
        root as int == uf_root(old(parent)@, rank, x as int),
        root < N,
        forall|y: int|
            0 <= y < N ==> #[trigger] uf_root(final(parent)@, rank, y) == uf_root(
                old(parent)@,
                rank,
                y,
            ),
    decreases N - rank[x as int],
{
    let ghost p0 = parent@;
    let above = parent[x];
    proof {
        lemma_root_props(p0, rank, x as int);
    }
    if above != x {
        let root = find(parent, Ghost(rank), above);
        let ghost p1 = parent@;
        proof {
            assert(uf_root(p1, rank, x as int) == uf_root(p0, rank, x as int));
            lemma_compress(p1, rank, x as int);
        }
        parent[x] = root;
        root
    } else {
        above
    }
}

/// Merges the sets that hold `x` and `y`, hanging the tree of lower rank
/// under the other.
pub(crate) fn unite<const N: usize>(parent: &mut [usize; N], rank: &mut [usize; N], x: usize, y: usize)
    requires
        uf_wf(old(parent)@, old(rank)@),
        x < N,
        y < N,
        forall|i: int| 0 <= i < N ==> #[trigger] old(rank)@[i] < N,
    ensures
        uf_wf(final(parent)@, final(rank)@),
        forall|i: int| 0 <= i < N ==> #[trigger] final(rank)@[i] <= old(rank)@[i] + 1,
        forall|a: int, b: int|
            0 <= a < N && 0 <= b < N ==> (#[trigger] uf_same(final(parent)@, final(rank)@, a, b)
                <==> {
                ||| uf_same(old(parent)@, old(rank)@, a, b)
                ||| (uf_same(old(parent)@, old(rank)@, a, x as int) && uf_same(
                    old(parent)@,
                    old(rank)@,
                    b,
                    y as int,
                ))
                ||| (uf_same(old(parent)@, old(rank)@, a, y as int) && uf_same(
                    old(parent)@,
                    old(rank)@,
                    b,
                    x as int,
                ))
            }),
{
    let ghost p0 = parent@;
    let ghost r0 = rank@;
    let x_root = find(parent, Ghost(r0), x);
    let ghost p1 = parent@;
    let y_root = find(parent, Ghost(r0), y);
    let ghost p2 = parent@;
    proof {
        lemma_root_props(p2, r0, x as int);
        lemma_root_props(p2, r0, y as int);
        assert(x_root as int == uf_root(p2, r0, x as int));
        assert(y_root as int == uf_root(p2, r0, y as int));
        assert(r0[x_root as int] < N);
        assert(r0[y_root as int] < N);
    }
    if x_root != y_root {
        if rank[x_root] < rank[y_root] {
            proof {
                lemma_link(p2, r0, x_root as int, y_root as int);
            }
            parent[x_root] = y_root;
        } else if rank[x_root] > rank[y_root] {
            proof {
                lemma_link(p2, r0, y_root as int, x_root as int);
            }
            parent[y_root] = x_root;
        } else {
            let ghost r1 = r0.update(x_root as int, (r0[x_root as int] + 1) as usize);
            proof {
                lemma_rank_bump(p2, r0, x_root as int);
                lemma_link(p2, r1, y_root as int, x_root as int);
                assert forall|z: int| 0 <= z < N implies #[trigger] uf_root(
                    p2.update(y_root as int, x_root),
                    r1,
                    z,
                ) == (if uf_root(p2, r0, z) == y_root as int {
                    x_root as int
                } else {
                    uf_root(p2, r0, z)
                }) by {}
            }
            parent[y_root] = x_root;
            rank[x_root] += 1;
            assert(rank@ == r1);
        }
    }
    proof {
        let pf = parent@;
        let rf = rank@;
        assert forall|a: int, b: int| 0 <= a < N && 0 <= b < N implies (#[trigger] uf_same(
            pf,
            rf,
            a,
            b,
        ) <==> {
            ||| uf_same(p0, r0, a, b)
            ||| (uf_same(p0, r0, a, x as int) && uf_same(p0, r0, b, y as int))
            ||| (uf_same(p0, r0, a, y as int) && uf_same(p0, r0, b, x as int))
        }) by {
            assert(uf_root(p2, r0, a) == uf_root(p0, r0, a)) by {
                let _ = uf_root(p1, r0, a);
            }
            assert(uf_root(p2, r0, b) == uf_root(p0, r0, b)) by {
                let _ = uf_root(p1, r0, b);
            }
            assert(uf_root(p2, r0, x as int) == uf_root(p0, r0, x as int)) by {
                let _ = uf_root(p1, r0, x as int);
            }
            assert(uf_root(p2, r0, y as int) == uf_root(p0, r0, y as int)) by {
                let _ = uf_root(p1, r0, y as int);
            }
            let _ = uf_root(pf, rf, a);
            let _ = uf_root(pf, rf, b);
        }
    }
}

} // verus!
