//! Allocation of USB addresses and the table of parent links behind it.

use crate::bitset::{bits_ones, bits_set, bits_write, bits_zero, BitSet128};
use crate::topology::{
    acyclic, adjacent, climbs, descends, in_subtree, single_root, cut_off, has_link, is_first_root, is_root_slot, is_walk, joined, joined_upto,
    lemma_joined_carries, lemma_joined_mono, lemma_joined_refl, lemma_joined_skip, lemma_joined_step,
    lemma_joined_sym, lemma_joined_trans, links_in_table, live_slot, only_freed, reaches_root_port,
    rooted, step_ok, up,
};
use crate::types::{DevInfo, PortInfo};
use crate::union_find::{find, uf_root, uf_same, uf_wf, unite};
use vstd::prelude::*;

verus! {

/// An addressed device: its address, the maximum packet size of its endpoint
/// zero, and what was known of it when it was attached.
#[derive(Clone, Copy, Debug, PartialEq, Eq)]
pub struct DeviceHandle {
    address: u8,
    max_packet_size: u16,
    parent: DevInfo,
}

impl DeviceHandle {
    pub closed spec fn spec_address(&self) -> u8 {
        self.address
    }

    pub closed spec fn spec_max_packet_size(&self) -> u16 {
        self.max_packet_size
    }

    pub closed spec fn spec_dev_info(&self) -> DevInfo {
        self.parent
    }

    #[verifier::when_used_as_spec(spec_address)]
    pub fn address(&self) -> (r: u8)
        ensures
            r == self.address(),
    {
        self.address
    }

    #[verifier::when_used_as_spec(spec_max_packet_size)]
    pub fn max_packet_size(&self) -> (r: u16)
        ensures
            r == self.max_packet_size(),
    {
        self.max_packet_size
    }

    #[verifier::when_used_as_spec(spec_dev_info)]
    pub fn dev_info(&self) -> (r: DevInfo)
        ensures
            r == self.dev_info(),
    {
        self.parent
    }
}

/// The set of addresses that one detach has invalidated.
#[derive(Debug)]
pub struct DeviceDisconnectMask {
    mask: BitSet128,
}

impl DeviceDisconnectMask {
    /// The addresses in the mask.
    pub closed spec fn view(&self) -> Set<int> {
        bits_set(self.mask)
    }

    /// The mask that names no address.
    pub fn new() -> (m: Self)
        ensures
            m@ == Set::<int>::empty(),
    {
        DeviceDisconnectMask { mask: bits_zero() }
    }

    /// The addresses in the mask, each once, in rising order.
    pub fn iter(&self) -> (v: Vec<usize>)
        ensures
            forall|k: int| 0 <= k < v.len() ==> self@.contains(#[trigger] v[k] as int) && v[k] < 128,
            forall|a: int| self@.contains(a) ==> exists|k: int| 0 <= k < v.len() && #[trigger] v[k] == a,
            forall|j: int, k: int| 0 <= j < k < v.len() ==> #[trigger] v[j] < #[trigger] v[k],
    {
        bits_ones(&self.mask)
    }

    /// Takes an address out of the mask.
    pub fn remove(&mut self, addr: usize)
        requires
            addr < 128,
        ensures
            final(self)@ == old(self)@.remove(addr as int),
    {
        bits_write(&mut self.mask, addr, false);
    }

    /// Puts an address into the mask.
    pub(crate) fn insert(&mut self, addr: usize)
        requires
            addr < 128,
        ensures
            final(self)@ == old(self)@.insert(addr as int),
    {
        bits_write(&mut self.mask, addr, true);
    }
}

/// Some slot of the table is empty.
pub open spec fn has_free(t: Seq<PortInfo>) -> bool {
    exists|i: int| 0 <= i < t.len() && (#[trigger] t[i]).empty()
}

/// Slot `i` is the lowest empty slot of the table.
pub open spec fn is_first_free(t: Seq<PortInfo>, i: int) -> bool {
    &&& 0 <= i < t.len()
    &&& t[i].empty()
    &&& forall|j: int| 0 <= j < i ==> !(#[trigger] t[j]).empty()
}

/// Slot `i` is the lowest slot whose record equals `port`.
pub open spec fn is_first_match(t: Seq<PortInfo>, port: PortInfo, i: int) -> bool {
    &&& 0 <= i < t.len()
    &&& t[i] == port
    &&& forall|j: int| 0 <= j < i ==> (#[trigger] t[j]) != port
}

/// No slot of the table holds `port`.
pub open spec fn no_match(t: Seq<PortInfo>, port: PortInfo) -> bool {
    forall|j: int| 0 <= j < t.len() ==> (#[trigger] t[j]) != port
}

/// Freeing the subtree below slot `n` frees slot `i`: it is `n` itself, or
/// it holds a device that is cut off from the root port once `n` is gone.
pub open spec fn freed_with(t: Seq<PortInfo>, n: int, i: int) -> bool {
    i == n || cut_off(t.update(n, PortInfo::blank()), i)
}

/// The table after the subtree below slot `n` has been freed.
pub open spec fn without_subtree(t: Seq<PortInfo>, n: int) -> Seq<PortInfo> {
    Seq::new(
        t.len(),
        |i: int|
            if freed_with(t, n, i) {
                PortInfo::blank()
            } else {
                t[i]
            },
    )
}

/// The table of parent links, one slot per address: address `a` lives in
/// slot `a - 1`. Address 0 is never handed out.
pub struct DeviceAddressManager<const NR_DEVICES: usize> {
    info: [PortInfo; NR_DEVICES],
}

impl<const NR_DEVICES: usize> DeviceAddressManager<NR_DEVICES> {
    /// The table, slot by slot.
    pub closed spec fn view(&self) -> Seq<PortInfo> {
        self.info@
    }

    /// The table has one slot per address.
    pub proof fn lemma_len(&self)
        ensures
            self@.len() == NR_DEVICES,
    {
    }

    /// A table in which no address is taken.
    pub fn new() -> (m: Self)
        ensures
            m@.len() == NR_DEVICES,
            forall|i: int| 0 <= i < NR_DEVICES ==> m@[i] == PortInfo::blank(),
            rooted(m@),
    {
        let m = DeviceAddressManager { info: [PortInfo::invalid(); NR_DEVICES] };
        proof {
            PortInfo::lemma_blank_empty();
            assert forall|i: int| 0 <= i < NR_DEVICES implies m.info@[i] == PortInfo::blank() by {}
        }
        m
    }

    /// Whether an address is left to hand out.
    pub fn has_free_address(&self) -> (r: bool)
        ensures
            r == has_free(self@),
    {
        let mut i: usize = 0;
        while i < NR_DEVICES
            invariant
                i <= NR_DEVICES,
                forall|j: int| 0 <= j < i ==> !(#[trigger] self.info@[j]).empty(),
            decreases NR_DEVICES - i,
        {
            if self.info[i].is_empty() {
                return true;
            }
            i += 1;
        }
        false
    }

    /// Hands out the lowest free address and records the port that the new
    /// device sits on.
    pub fn alloc_device_address(&mut self, max_packet_size: u16, parent: DevInfo) -> (h: DeviceHandle)
        requires
            NR_DEVICES <= 127,
            has_free(old(self)@),
            !parent.port().empty(),
        ensures
            1 <= h.address() <= NR_DEVICES,
            is_first_free(old(self)@, h.address() - 1),
            final(self)@ == old(self)@.update(h.address() - 1, parent.port()),
            h.max_packet_size() == max_packet_size,
            h.dev_info() == parent,
            rooted(old(self)@) && (parent.port().parent() == 0 || live_slot(
                old(self)@,
                parent.port().parent() - 1,
            )) ==> rooted(final(self)@),
    {
        let mut i: usize = 0;
        while i < NR_DEVICES
            invariant
                i <= NR_DEVICES <= 127,
                !parent.port().empty(),
                self.info@ == old(self).info@,
                forall|j: int| 0 <= j < i ==> !(#[trigger] self.info@[j]).empty(),
            decreases NR_DEVICES - i,
        {
            if self.info[i].is_empty() {
                self.info[i] = parent.port();
                proof {
                    if rooted(old(self)@) && (parent.port().parent() == 0 || live_slot(
                        old(self)@,
                        parent.port().parent() - 1,
                    )) {
                        lemma_alloc_keeps_rooted(old(self)@, i as int, parent.port());
                    }
                }
                return DeviceHandle { address: i as u8 + 1, max_packet_size, parent };
            }
            i += 1;
        }
        proof {
            assert(false);
        }
        vstd::pervasive::unreached()
    }

    /// Gives an address back.
    pub fn free_address(&mut self, device_handle: DeviceHandle)
        requires
            1 <= device_handle.address() <= NR_DEVICES,
            !old(self)@[device_handle.address() - 1].empty(),
        ensures
            final(self)@ == old(self)@.update(device_handle.address() - 1, PortInfo::blank()),
            only_freed(old(self)@, final(self)@),
    {
        self.info[device_handle.address() as usize - 1] = PortInfo::invalid();
        proof {
            PortInfo::lemma_blank_empty();
        }
    }

    /// Gives every address back, and names those that were taken.
    pub fn free_all_addresses(&mut self) -> (mask: DeviceDisconnectMask)
        requires
            NR_DEVICES <= 127,
        ensures
            forall|a: int| mask@.contains(a) <==> 1 <= a <= NR_DEVICES && live_slot(old(self)@, a - 1),
            final(self)@.len() == NR_DEVICES,
            forall|i: int|
                0 <= i < NR_DEVICES ==> (#[trigger] final(self)@[i]) == (if live_slot(old(self)@, i) {
                    PortInfo::blank()
                } else {
                    old(self)@[i]
                }),
            forall|i: int| 0 <= i < NR_DEVICES ==> !live_slot(final(self)@, i),
            only_freed(old(self)@, final(self)@),
            rooted(final(self)@),
    {
        let mut mask = DeviceDisconnectMask::new();
        let mut i: usize = 0;
        proof {
            PortInfo::lemma_blank_empty();
        }
        while i < NR_DEVICES
            invariant
                i <= NR_DEVICES <= 127,
                PortInfo::blank().empty(),
                forall|a: int| mask@.contains(a) <==> 1 <= a <= i && live_slot(old(self)@, a - 1),
                forall|j: int|
                    0 <= j < i ==> (#[trigger] self.info@[j]) == (if live_slot(old(self).info@, j) {
                        PortInfo::blank()
                    } else {
                        old(self).info@[j]
                    }),
                forall|j: int| i <= j < NR_DEVICES ==> (#[trigger] self.info@[j]) == old(self).info@[j],
            decreases NR_DEVICES - i,
        {
            if !self.info[i].is_empty() {
                mask.insert(i + 1);
                self.info[i] = PortInfo::invalid();
            }
            i += 1;
        }
        mask
    }

    /// Frees the device on port `dev_info` and every device that loses its
    /// connection to the root port with it, and names the addresses freed.
    ///
    /// The slot of the device is found by its port record and emptied. The
    /// remaining parent links are then read as an undirected graph: a device
    /// survives if a walk joins it to the first device on the root port.
    /// When no device is left on the root port, none survives.
    pub fn free_subtree(&mut self, dev_info: PortInfo) -> (mask: DeviceDisconnectMask)
        requires
            NR_DEVICES <= 127,
            links_in_table(old(self)@),
            forall|n: int| #[trigger] is_first_match(old(self)@, dev_info, n) ==> !old(self)@[n].empty(),
        ensures
            only_freed(old(self)@, final(self)@),
            links_in_table(final(self)@),
            no_match(old(self)@, dev_info) ==> mask@ == Set::<int>::empty() && final(self)@ == old(self)@,
            forall|n: int| #[trigger]
                is_first_match(old(self)@, dev_info, n) ==> {
                    &&& final(self)@ == without_subtree(old(self)@, n)
                    &&& forall|a: int|
                        mask@.contains(a) <==> 1 <= a <= NR_DEVICES && freed_with(old(self)@, n, a - 1)
                },
    {
        let mut mask = DeviceDisconnectMask::new();
        let idx = match self.find_index(dev_info) {
            Some(idx) => idx,
            None => {
                return mask;
            },
        };
        self.info[idx] = PortInfo::invalid();
        mask.insert(idx + 1);
        let ghost t0 = old(self).info@;
        let ghost t1 = self.info@;
        proof {
            PortInfo::lemma_blank_empty();
            assert(t1 == t0.update(idx as int, PortInfo::blank()));
            assert(links_in_table(t1)) by {
                assert forall|i: int| #[trigger] live_slot(t1, i) implies up(t1, i) < t1.len() by {
                    assert(live_slot(t0, i));
                }
            }
        }

        let mut parent = [0usize; NR_DEVICES];
        let mut rank = [0usize; NR_DEVICES];
        let mut i: usize = 0;
        while i < NR_DEVICES
            invariant
                i <= NR_DEVICES,
                forall|j: int| 0 <= j < i ==> (#[trigger] parent@[j]) == j,
                forall|j: int| 0 <= j < NR_DEVICES ==> (#[trigger] rank@[j]) == 0,
            decreases NR_DEVICES - i,
        {
            parent[i] = i;
            i += 1;
        }
        proof {
            lemma_sets_match_start(t1, parent@, rank@);
        }

        let mut i: usize = 0;
        while i < NR_DEVICES
            invariant
                i <= NR_DEVICES <= 127,
                self.info@ == t1,
                t1.len() == NR_DEVICES,
                links_in_table(t1),
                uf_wf(parent@, rank@),
                forall|j: int| 0 <= j < NR_DEVICES ==> (#[trigger] rank@[j]) <= i,
                sets_match(t1, i as int, parent@, rank@),
            decreases NR_DEVICES - i,
        {
            let ghost p0 = parent@;
            let ghost r0 = rank@;
            let mut linked = false;
            if !self.info[i].is_empty() {
                if let Some(parent_addr) = self.info[i].parent_addr() {
                    if parent_addr > 0 {
                        assert(live_slot(t1, i as int));
                        unite(&mut parent, &mut rank, i, parent_addr as usize - 1);
                        linked = true;
                        proof {
                            lemma_sets_match_link(t1, i as int, p0, r0, parent@, rank@);
                        }
                    }
                }
            }
            proof {
                if !linked {
                    lemma_sets_match_skip(t1, i as int, parent@, rank@);
                }
            }
            i += 1;
        }

        let mut root_component: Option<usize> = None;
        let ghost mut first: int = -1;
        let mut i: usize = 0;
        while i < NR_DEVICES && root_component.is_none()
            invariant
                i <= NR_DEVICES <= 127,
                self.info@ == t1,
                t1.len() == NR_DEVICES,
                uf_wf(parent@, rank@),
                sets_match(t1, NR_DEVICES as int, parent@, rank@),
                root_component is None ==> forall|j: int| 0 <= j < i ==> !#[trigger] is_root_slot(t1, j),
                root_component matches Some(root) ==> is_first_root(t1, first) && root as int
                    == uf_root(parent@, rank@, first),
            decreases NR_DEVICES - i,
        {
            if !self.info[i].is_empty() {
                let above = self.info[i].parent_addr();
                if above == Some(0) {
                    let ghost p0 = parent@;
                    let root = find(&mut parent, Ghost(rank@), i);
                    root_component = Some(root);
                    proof {
                        first = i as int;
                        lemma_sets_match_same_roots(t1, p0, parent@, rank@);
                    }
                }
            }
            i += 1;
        }

        if let Some(root) = root_component {
            let mut i: usize = 0;
            while i < NR_DEVICES
                invariant
                    i <= NR_DEVICES <= 127,
                    idx < NR_DEVICES,
                    self.info@.len() == NR_DEVICES,
                    t1.len() == NR_DEVICES,
                    PortInfo::blank().empty(),
                    uf_wf(parent@, rank@),
                    sets_match(t1, NR_DEVICES as int, parent@, rank@),
                    is_first_root(t1, first),
                    root as int == uf_root(parent@, rank@, first),
                    forall|j: int| i <= j < NR_DEVICES ==> (#[trigger] self.info@[j]) == t1[j],
                    forall|j: int|
                        0 <= j < i ==> (#[trigger] self.info@[j]) == (if cut_off(t1, j) {
                            PortInfo::blank()
                        } else {
                            t1[j]
                        }),
                    forall|a: int|
                        mask@.contains(a) <==> a == idx + 1 || (1 <= a <= i && cut_off(t1, a - 1)),
                decreases NR_DEVICES - i,
            {
                proof {
                    lemma_cut_off_with_root(t1, first, i as int);
                }
                if !self.info[i].is_empty() {
                    let ghost p0 = parent@;
                    let found = find(&mut parent, Ghost(rank@), i);
                    proof {
                        lemma_sets_match_same_roots(t1, p0, parent@, rank@);
                        assert(uf_same(parent@, rank@, i as int, first) <==> joined(t1, i as int, first));
                    }
                    if found != root {
                        mask.insert(i + 1);
                        self.info[i] = PortInfo::invalid();
                    }
                }
                i += 1;
            }
        } else {
            let mut i: usize = 0;
            while i < NR_DEVICES
                invariant
                    i <= NR_DEVICES <= 127,
                    idx < NR_DEVICES,
                    self.info@.len() == NR_DEVICES,
                    t1.len() == NR_DEVICES,
                    PortInfo::blank().empty(),
                    forall|j: int| i <= j < NR_DEVICES ==> (#[trigger] self.info@[j]) == t1[j],
                    forall|j: int|
                        0 <= j < i ==> (#[trigger] self.info@[j]) == (if live_slot(t1, j) {
                            PortInfo::blank()
                        } else {
                            t1[j]
                        }),
                    forall|a: int|
                        mask@.contains(a) <==> a == idx + 1 || (1 <= a <= i && live_slot(t1, a - 1)),
                decreases NR_DEVICES - i,
            {
                if !self.info[i].is_empty() {
                    mask.insert(i + 1);
                    self.info[i] = PortInfo::invalid();
                }
                i += 1;
            }
            proof {
                assert forall|j: int| 0 <= j < NR_DEVICES implies (cut_off(t1, j) <==> live_slot(
                    t1,
                    j,
                )) by {
                    lemma_no_root_all_cut(t1, j);
                }
            }
        }
        proof {
            let tf = self.info@;
            assert(forall|a: int| mask@.contains(a) <==> a == idx + 1 || (1 <= a <= NR_DEVICES && cut_off(t1, a - 1)));
            assert forall|j: int| 0 <= j < NR_DEVICES implies #[trigger] tf[j] == (if cut_off(t1, j) {
                PortInfo::blank()
            } else {
                t1[j]
            }) by {}
            assert(tf =~= without_subtree(t0, idx as int));
            assert(only_freed(t0, tf));
            assert(links_in_table(tf)) by {
                assert forall|i: int| #[trigger] live_slot(tf, i) implies up(tf, i) < tf.len() by {
                    assert(live_slot(t0, i));
                }
            }
            assert forall|n: int| #[trigger] is_first_match(t0, dev_info, n) implies n == idx by {
                if n < idx {
                    assert(t0[n] != dev_info);
                } else if idx < n {
                    assert(t0[idx as int] != dev_info);
                }
            }
        }
        mask
    }

    /// Whether `free_subtree` may be asked to free the device on `dev_info`:
    /// every parent address has a slot, and the slot that `dev_info` names,
    /// if there is one, holds a device.
    pub fn accepts_free_subtree(&self, dev_info: PortInfo) -> (r: bool)
        ensures
            r == (links_in_table(self@) && forall|n: int| #[trigger]
                is_first_match(self@, dev_info, n) ==> !self@[n].empty()),
    {
        let mut i: usize = 0;
        while i < NR_DEVICES
            invariant
                i <= NR_DEVICES,
                forall|j: int| 0 <= j < i && #[trigger] live_slot(self.info@, j) ==> up(self.info@, j) < NR_DEVICES,
            decreases NR_DEVICES - i,
        {
            if let Some(above) = self.info[i].parent_addr() {
                if above as usize > NR_DEVICES {
                    assert(live_slot(self.info@, i as int));
                    return false;
                }
            }
            i += 1;
        }
        match self.find_index(dev_info) {
            Some(n) => {
                let found = !self.info[n].is_empty();
                proof {
                    assert forall|m: int| #[trigger] is_first_match(self@, dev_info, m) implies m == n by {
                        if m < n {
                            assert(self@[m] != dev_info);
                        } else if n < m {
                            assert(self@[n as int] != dev_info);
                        }
                    }
                }
                found
            },
            None => true,
        }
    }

    /// The lowest slot whose record equals `dev_info`.
    pub fn find_index(&self, dev_info: PortInfo) -> (r: Option<usize>)
        ensures
            match r {
                Some(i) => is_first_match(self@, dev_info, i as int),
                None => no_match(self@, dev_info),
            },
    {
        let mut i: usize = 0;
        while i < NR_DEVICES
            invariant
                i <= NR_DEVICES,
                forall|j: int| 0 <= j < i ==> (#[trigger] self.info@[j]) != dev_info,
            decreases NR_DEVICES - i,
        {
            if self.info[i] == dev_info {
                return Some(i);
            }
            i += 1;
        }
        None
    }
}

// ---------------------------------------------------------------------------
// The sets of the union-find and the walks of the table
// ---------------------------------------------------------------------------

/// The sets of the union-find are the classes of slots joined by walks along
/// the parent links of slots below `k`.
pub open spec fn sets_match(t: Seq<PortInfo>, k: int, p: Seq<usize>, r: Seq<usize>) -> bool {
    forall|x: int, y: int|
        0 <= x < t.len() && 0 <= y < t.len() ==> (#[trigger] uf_same(p, r, x, y) <==> joined_upto(
            t,
            k,
            x,
            y,
        ))
}

proof fn lemma_sets_match_start(t: Seq<PortInfo>, p: Seq<usize>, r: Seq<usize>)
    requires
        p.len() == t.len(),
        r.len() == t.len(),
        t.len() <= usize::MAX,
        forall|j: int| 0 <= j < t.len() ==> (#[trigger] p[j]) == j,
        forall|j: int| 0 <= j < t.len() ==> (#[trigger] r[j]) == 0,
    ensures
        uf_wf(p, r),
        sets_match(t, 0, p, r),
{
    assert(uf_wf(p, r));
    assert forall|x: int, y: int| 0 <= x < t.len() && 0 <= y < t.len() implies (#[trigger] uf_same(
        p,
        r,
        x,
        y,
    ) <==> joined_upto(t, 0, x, y)) by {
        assert(uf_root(p, r, x) == x);
        assert(uf_root(p, r, y) == y);
        if x == y {
            lemma_joined_refl(t, 0, x);
        }
        if joined_upto(t, 0, x, y) {
            let w = choose|w: Seq<int>| #[trigger] is_walk(t, 0, w) && w.first() == x && w.last() == y;
            if w.len() > 1 {
                assert(step_ok(t, 0, w, 0));
            }
        }
    }
}

proof fn lemma_sets_match_skip(t: Seq<PortInfo>, k: int, p: Seq<usize>, r: Seq<usize>)
    requires
        sets_match(t, k, p, r),
        !has_link(t, k),
    ensures
        sets_match(t, k + 1, p, r),
{
    assert forall|x: int, y: int| 0 <= x < t.len() && 0 <= y < t.len() implies (#[trigger] uf_same(
        p,
        r,
        x,
        y,
    ) <==> joined_upto(t, k + 1, x, y)) by {
        if joined_upto(t, k, x, y) {
            lemma_joined_mono(t, k, k + 1, x, y);
        }
        if joined_upto(t, k + 1, x, y) {
            lemma_joined_skip(t, k, x, y);
        }
    }
}

proof fn lemma_sets_match_same_roots(t: Seq<PortInfo>, p0: Seq<usize>, p1: Seq<usize>, r: Seq<usize>)
    requires
        sets_match(t, t.len() as int, p0, r),
        p0.len() == t.len(),
        forall|y: int| 0 <= y < t.len() ==> #[trigger] uf_root(p1, r, y) == uf_root(p0, r, y),
    ensures
        sets_match(t, t.len() as int, p1, r),
{
    assert forall|x: int, y: int| 0 <= x < t.len() && 0 <= y < t.len() implies (#[trigger] uf_same(
        p1,
        r,
        x,
        y,
    ) <==> joined_upto(t, t.len() as int, x, y)) by {
        assert(uf_same(p0, r, x, y) <==> joined_upto(t, t.len() as int, x, y));
    }
}

proof fn lemma_sets_match_link(
    t: Seq<PortInfo>,
    k: int,
    p0: Seq<usize>,
    r0: Seq<usize>,
    p1: Seq<usize>,
    r1: Seq<usize>,
)
    requires
        sets_match(t, k, p0, r0),
        has_link(t, k),
        forall|a: int, b: int|
            0 <= a < t.len() && 0 <= b < t.len() ==> (#[trigger] uf_same(p1, r1, a, b) <==> {
                ||| uf_same(p0, r0, a, b)
                ||| (uf_same(p0, r0, a, k) && uf_same(p0, r0, b, up(t, k)))
                ||| (uf_same(p0, r0, a, up(t, k)) && uf_same(p0, r0, b, k))
            }),
    ensures
        sets_match(t, k + 1, p1, r1),
{
    let a = k;
    let b = up(t, k);
    assert(adjacent(t, k + 1, a, b));
    lemma_joined_step(t, k + 1, a, b);
    lemma_joined_sym(t, k + 1, a, b);
    assert forall|x: int, y: int| 0 <= x < t.len() && 0 <= y < t.len() implies (#[trigger] uf_same(
        p1,
        r1,
        x,
        y,
    ) <==> joined_upto(t, k + 1, x, y)) by {
        if uf_same(p1, r1, x, y) {
            if uf_same(p0, r0, x, y) {
                lemma_joined_mono(t, k, k + 1, x, y);
            } else if uf_same(p0, r0, x, a) && uf_same(p0, r0, y, b) {
                lemma_joined_mono(t, k, k + 1, x, a);
                lemma_joined_mono(t, k, k + 1, y, b);
                lemma_joined_sym(t, k + 1, y, b);
                lemma_joined_trans(t, k + 1, x, a, b);
                lemma_joined_trans(t, k + 1, x, b, y);
            } else {
                assert(uf_same(p0, r0, x, b) && uf_same(p0, r0, y, a));
                lemma_joined_mono(t, k, k + 1, x, b);
                lemma_joined_mono(t, k, k + 1, y, a);
                lemma_joined_sym(t, k + 1, y, a);
                lemma_joined_trans(t, k + 1, x, b, a);
                lemma_joined_trans(t, k + 1, x, a, y);
            }
        }
        if joined_upto(t, k + 1, x, y) {
            let s = |z: int| 0 <= z < t.len() && uf_same(p1, r1, x, z);
            assert forall|u: int, v: int| #[trigger] adjacent(t, k + 1, u, v) && s(u) implies s(v) by {
                assert(0 <= u < t.len() && 0 <= v < t.len());
                if adjacent(t, k, u, v) {
                    lemma_joined_step(t, k, u, v);
                    assert(uf_same(p0, r0, u, v));
                    assert(uf_same(p1, r1, u, v));
                } else {
                    assert((u == a && v == b) || (u == b && v == a));
                    assert(uf_same(p0, r0, a, a));
                    assert(uf_same(p0, r0, b, b));
                    assert(uf_same(p1, r1, u, v));
                }
                assert(uf_same(p1, r1, x, v));
            }
            assert(uf_same(p0, r0, x, x));
            assert(uf_same(p1, r1, x, x));
            lemma_joined_carries(t, k + 1, x, y, s);
        }
    }
}

/// With a first device on the root port known, a live slot is cut off
/// exactly when no walk joins it to that device.
proof fn lemma_cut_off_with_root(t: Seq<PortInfo>, r0: int, j: int)
    requires
        is_first_root(t, r0),
    ensures
        cut_off(t, j) <==> (live_slot(t, j) && !joined(t, j, r0)),
{
    if live_slot(t, j) && !joined(t, j, r0) {
        assert forall|r: int| #[trigger] is_first_root(t, r) implies !joined(t, j, r) by {
            lemma_first_root_unique(t, r, r0);
        }
    }
}

/// The first device on the root port is determined by the table.
pub proof fn lemma_first_root_unique(t: Seq<PortInfo>, r: int, r2: int)
    requires
        is_first_root(t, r),
        is_first_root(t, r2),
    ensures
        r == r2,
{
    if r < r2 {
        assert(!is_root_slot(t, r));
    } else if r2 < r {
        assert(!is_root_slot(t, r2));
    }
}

/// Without a device on the root port every live slot is cut off.
proof fn lemma_no_root_all_cut(t: Seq<PortInfo>, j: int)
    requires
        forall|r: int| 0 <= r < t.len() ==> !#[trigger] is_root_slot(t, r),
    ensures
        cut_off(t, j) <==> live_slot(t, j),
{
    assert forall|r: int| #[trigger] is_first_root(t, r) implies !joined(t, j, r) by {
        assert(is_root_slot(t, r));
    }
}

// ---------------------------------------------------------------------------
// Forest lemmas
// ---------------------------------------------------------------------------

/// A climb in a table is still a climb when a slot that was empty is filled.
proof fn lemma_climbs_after_fill(t: Seq<PortInfo>, n: int, p: PortInfo, i: int, f: nat)
    requires
        0 <= n < t.len(),
        t[n].empty(),
        climbs(t, i, f),
    ensures
        climbs(t.update(n, p), i, f),
    decreases f,
{
    if up(t, i) != -1 {
        lemma_climbs_after_fill(t, n, p, up(t, i), (f - 1) as nat);
    }
}

/// Filling an empty slot with a device whose parent is the root port or a
/// live slot keeps the forest rooted.
pub proof fn lemma_alloc_keeps_rooted(t: Seq<PortInfo>, n: int, p: PortInfo)
    requires
        rooted(t),
        0 <= n < t.len(),
        t[n].empty(),
        !p.empty(),
        p.parent() == 0 || live_slot(t, p.parent() - 1),
    ensures
        rooted(t.update(n, p)),
{
    let t2 = t.update(n, p);
    assert forall|i: int| #[trigger] live_slot(t2, i) implies reaches_root_port(t2, i) by {
        if i == n {
            if p.parent() == 0 {
                assert(climbs(t2, i, 0));
            } else {
                let q = p.parent() - 1;
                assert(live_slot(t, q));
                let f = choose|f: nat| climbs(t, q, f);
                lemma_climbs_after_fill(t, n, p, q, f);
                assert(climbs(t2, i, f + 1));
            }
        } else {
            assert(live_slot(t, i));
            let f = choose|f: nat| climbs(t, i, f);
            lemma_climbs_after_fill(t, n, p, i, f);
        }
    }
}

/// A climb ends at a device on the root port, and the slot it started from
/// lies in that device's subtree.
proof fn lemma_climb_top(t: Seq<PortInfo>, i: int, f: nat) -> (r: int)
    requires
        climbs(t, i, f),
    ensures
        is_root_slot(t, r),
        descends(t, i, r, f),
    decreases f,
{
    if up(t, i) == -1 {
        i
    } else {
        lemma_climb_top(t, up(t, i), (f - 1) as nat)
    }
}

/// Descending composes: if `i` lies below `m` and `m` below `n`, then `i`
/// lies below `n`.
pub proof fn lemma_descends_trans(t: Seq<PortInfo>, i: int, m: int, n: int, f: nat, g: nat)
    requires
        descends(t, i, m, f),
        descends(t, m, n, g),
    ensures
        descends(t, i, n, f + g),
    decreases f,
{
    if i == m {
        lemma_descends_more(t, m, n, g, f + g);
    } else {
        lemma_descends_trans(t, up(t, i), m, n, (f - 1) as nat, g);
    }
}

/// Descending succeeds with more fuel if it succeeds with less.
pub proof fn lemma_descends_more(t: Seq<PortInfo>, i: int, n: int, f: nat, g: nat)
    requires
        descends(t, i, n, f),
        f <= g,
    ensures
        descends(t, i, n, g),
    decreases f,
{
    if i != n {
        lemma_descends_more(t, up(t, i), n, (f - 1) as nat, (g - 1) as nat);
    }
}

/// A descent in a table with some slots emptied is a descent in the table
/// as it was.
proof fn lemma_descends_before(t: Seq<PortInfo>, t2: Seq<PortInfo>, i: int, n: int, f: nat)
    requires
        only_freed(t, t2),
        descends(t2, i, n, f),
    ensures
        descends(t, i, n, f),
    decreases f,
{
    assert(t2[i] == t[i]);
    if i != n {
        lemma_descends_before(t, t2, up(t2, i), n, (f - 1) as nat);
    }
}

/// A device that climbs to the root port is not its own ancestor.
proof fn lemma_no_loop(t: Seq<PortInfo>, i: int, f: nat, g: nat)
    requires
        climbs(t, i, f),
    ensures
        !descends(t, up(t, i), i, g),
    decreases f,
{
    if up(t, i) != -1 && descends(t, up(t, i), i, g) {
        let j = up(t, i);
        // `i` hangs one step below `j`, so a descent from `j` to `i` puts
        // `j` below itself as well.
        assert(descends(t, i, j, 1)) by {
            assert(descends(t, j, j, 0));
        }
        if j == i {
            assert(descends(t, up(t, j), j, 0));
            lemma_no_loop(t, j, (f - 1) as nat, 0);
        } else {
            assert(descends(t, up(t, j), i, (g - 1) as nat));
            lemma_descends_trans(t, up(t, j), i, j, (g - 1) as nat, 1);
            lemma_no_loop(t, j, (f - 1) as nat, g);
        }
    }
}

/// A forest rooted at the root port has no cycle.
pub proof fn lemma_rooted_is_acyclic(t: Seq<PortInfo>)
    requires
        rooted(t),
    ensures
        acyclic(t),
{
    assert forall|i: int| #[trigger] live_slot(t, i) implies !in_subtree(t, i, up(t, i)) by {
        if in_subtree(t, i, up(t, i)) {
            let g = choose|g: nat| descends(t, up(t, i), i, g);
            let f = choose|f: nat| climbs(t, i, f);
            lemma_no_loop(t, i, f, g);
        }
    }
}

/// Emptying slots never closes a cycle: every freeing operation keeps an
/// acyclic table acyclic.
pub proof fn lemma_freeing_keeps_acyclic(t: Seq<PortInfo>, t2: Seq<PortInfo>)
    requires
        acyclic(t),
        only_freed(t, t2),
    ensures
        acyclic(t2),
{
    assert forall|i: int| #[trigger] live_slot(t2, i) implies !in_subtree(t2, i, up(t2, i)) by {
        assert(t2[i] == t[i]);
        assert(live_slot(t, i));
        if in_subtree(t2, i, up(t2, i)) {
            let g = choose|g: nat| descends(t2, up(t2, i), i, g);
            lemma_descends_before(t, t2, up(t2, i), i, g);
            assert(in_subtree(t, i, up(t, i)));
        }
    }
}

/// A slot is a leaf when no live slot names it as its parent.
pub open spec fn is_leaf(t: Seq<PortInfo>, n: int) -> bool {
    forall|i: int| #[trigger] live_slot(t, i) ==> up(t, i) != n
}

proof fn lemma_climb_past_leaf(t: Seq<PortInfo>, n: int, i: int, f: nat)
    requires
        0 <= n < t.len(),
        is_leaf(t, n),
        i != n,
        climbs(t, i, f),
    ensures
        climbs(t.update(n, PortInfo::blank()), i, f),
    decreases f,
{
    if up(t, i) != -1 {
        lemma_climb_past_leaf(t, n, up(t, i), (f - 1) as nat);
    }
}

/// Giving back the address of a device that has nothing below it keeps the
/// forest rooted.
pub proof fn lemma_free_leaf_keeps_rooted(t: Seq<PortInfo>, n: int)
    requires
        rooted(t),
        0 <= n < t.len(),
        is_leaf(t, n),
    ensures
        rooted(t.update(n, PortInfo::blank())),
{
    PortInfo::lemma_blank_empty();
    let t2 = t.update(n, PortInfo::blank());
    assert forall|i: int| #[trigger] live_slot(t2, i) implies reaches_root_port(t2, i) by {
        assert(live_slot(t, i));
        let f = choose|f: nat| climbs(t, i, f);
        lemma_climb_past_leaf(t, n, i, f);
    }
}

/// A device outside the subtree below `n` stays joined to the device on the
/// root port when `n` is emptied.
proof fn lemma_outside_stays_joined(t: Seq<PortInfo>, n: int, r: int, i: int, f: nat)
    requires
        single_root(t),
        is_root_slot(t, r),
        0 <= n < t.len(),
        climbs(t, i, f),
        !in_subtree(t, n, i),
    ensures
        joined(t.update(n, PortInfo::blank()), i, r),
    decreases f,
{
    let t1 = t.update(n, PortInfo::blank());
    let k = t1.len() as int;
    assert(i != n) by {
        if i == n {
            assert(descends(t, i, n, 0));
        }
    }
    if up(t, i) == -1 {
        assert(is_root_slot(t, i));
        assert(i == r);
        lemma_joined_refl(t1, k, i);
    } else {
        let v = up(t, i);
        assert(!in_subtree(t, n, v)) by {
            if in_subtree(t, n, v) {
                let g = choose|g: nat| descends(t, v, n, g);
                assert(descends(t, i, n, g + 1));
            }
        }
        lemma_outside_stays_joined(t, n, r, v, (f - 1) as nat);
        assert(t1[i] == t[i]);
        assert(adjacent(t1, k, i, v));
        lemma_joined_step(t1, k, i, v);
        lemma_joined_trans(t1, k, i, v, r);
    }
}

/// A climb that starts outside the subtree below `n` is still a climb when
/// that subtree is gone.
proof fn lemma_climb_outside(t: Seq<PortInfo>, t2: Seq<PortInfo>, n: int, i: int, f: nat)
    requires
        t2.len() == t.len(),
        forall|j: int| 0 <= j < t.len() && !in_subtree(t, n, j) ==> #[trigger] t2[j] == t[j],
        climbs(t, i, f),
        !in_subtree(t, n, i),
    ensures
        climbs(t2, i, f),
    decreases f,
{
    if up(t, i) != -1 {
        let v = up(t, i);
        assert(!in_subtree(t, n, v)) by {
            if in_subtree(t, n, v) {
                let g = choose|g: nat| descends(t, v, n, g);
                assert(descends(t, i, n, g + 1));
            }
        }
        lemma_climb_outside(t, t2, n, v, (f - 1) as nat);
    }
}

/// In a forest rooted at the root port with at most one device on that
/// port, freeing the subtree below any live slot `n` frees slot `n` and its
/// transitive descendants and no other slot, and what is left is again such
/// a forest.
pub proof fn lemma_free_subtree_frees_the_subtree(t: Seq<PortInfo>, n: int)
    requires
        rooted(t),
        single_root(t),
        live_slot(t, n),
    ensures
        forall|i: int| 0 <= i < t.len() ==> (#[trigger] freed_with(t, n, i) <==> in_subtree(t, n, i)),
        forall|i: int|
            0 <= i < t.len() ==> (#[trigger] without_subtree(t, n)[i]) == (if in_subtree(t, n, i) {
                PortInfo::blank()
            } else {
                t[i]
            }),
        rooted(without_subtree(t, n)),
        single_root(without_subtree(t, n)),
{
    PortInfo::lemma_blank_empty();
    let t1 = t.update(n, PortInfo::blank());
    let k = t1.len() as int;
    assert(descends(t, n, n, 0));
    if is_root_slot(t, n) {
        // With the one device on the root port gone, no root is left: every
        // live slot is cut off, and every live slot hung below `n`.
        assert forall|r: int| 0 <= r < t1.len() implies !#[trigger] is_root_slot(t1, r) by {
            if is_root_slot(t1, r) {
                assert(t1[r] == t[r]);
                assert(is_root_slot(t, r));
            }
        }
        assert forall|i: int| 0 <= i < t.len() implies (#[trigger] freed_with(t, n, i) <==> in_subtree(
            t,
            n,
            i,
        )) by {
            lemma_no_root_all_cut(t1, i);
            if i != n {
                assert(t1[i] == t[i]);
                if live_slot(t, i) {
                    let fi = choose|f: nat| climbs(t, i, f);
                    let top = lemma_climb_top(t, i, fi);
                    assert(top == n);
                    assert(in_subtree(t, n, i));
                }
                if in_subtree(t, n, i) {
                    let g = choose|g: nat| descends(t, i, n, g);
                    assert(live_slot(t, i));
                }
            }
        }
    } else {
        let f = choose|f: nat| climbs(t, n, f);
        let r = lemma_climb_top(t, n, f);
        assert(is_first_root(t1, r)) by {
            assert(t1[r] == t[r]);
            assert forall|j: int| 0 <= j < r implies !#[trigger] is_root_slot(t1, j) by {
                if is_root_slot(t1, j) {
                    assert(is_root_slot(t, j));
                }
            }
        }
        assert forall|i: int| 0 <= i < t.len() implies (#[trigger] freed_with(t, n, i) <==> in_subtree(
            t,
            n,
            i,
        )) by {
            lemma_cut_off_with_root(t1, r, i);
            if i != n {
                if in_subtree(t, n, i) {
                    let g = choose|g: nat| descends(t, i, n, g);
                    assert(live_slot(t1, i));
                    if joined(t1, i, r) {
                        let s = |z: int| in_subtree(t, n, z);
                        assert forall|u: int, v: int| #[trigger]
                            adjacent(t1, k, u, v) && s(u) implies s(v) by {
                            let gu = choose|g: nat| descends(t, u, n, g);
                            if has_link(t1, u) && up(t1, u) == v {
                                assert(t1[u] == t[u]);
                                assert(descends(t, v, n, (gu - 1) as nat));
                            } else {
                                assert(t1[v] == t[v]);
                                assert(descends(t, v, n, gu + 1));
                            }
                        }
                        lemma_joined_carries(t1, k, i, r, s);
                        assert(s(r));
                        let gr = choose|g: nat| descends(t, r, n, g);
                        assert(descends(t, r, n, gr));
                        assert(r != n);
                        assert(!live_slot(t, up(t, r)));
                        assert(!descends(t, up(t, r), n, (gr - 1) as nat));
                        assert(false);
                    }
                } else if live_slot(t, i) {
                    let fi = choose|f: nat| climbs(t, i, f);
                    lemma_outside_stays_joined(t, n, r, i, fi);
                }
            }
        }
    }
    let t2 = without_subtree(t, n);
    assert forall|i: int| #[trigger] live_slot(t2, i) implies reaches_root_port(t2, i) by {
        assert(!freed_with(t, n, i));
        assert(live_slot(t, i));
        let fi = choose|f: nat| climbs(t, i, f);
        lemma_climb_outside(t, t2, n, i, fi);
    }
    assert forall|i: int, j: int| #[trigger] is_root_slot(t2, i) && #[trigger] is_root_slot(t2, j) implies i == j by {
        assert(!freed_with(t, n, i));
        assert(!freed_with(t, n, j));
        assert(is_root_slot(t, i) && is_root_slot(t, j));
    }
}

// ---------------------------------------------------------------------------
// Runs of allocations
// ---------------------------------------------------------------------------

/// The lowest empty slot of a table that has one.
pub open spec fn first_free(t: Seq<PortInfo>) -> int {
    choose|i: int| is_first_free(t, i)
}

proof fn lemma_least_free(t: Seq<PortInfo>, i: int)
    requires
        0 <= i < t.len(),
        t[i].empty(),
    ensures
        exists|m: int| is_first_free(t, m),
    decreases i,
{
    if exists|j: int| 0 <= j < i && (#[trigger] t[j]).empty() {
        let j = choose|j: int| 0 <= j < i && (#[trigger] t[j]).empty();
        lemma_least_free(t, j);
    } else {
        assert(is_first_free(t, i));
    }
}

/// A table with an empty slot has exactly one lowest empty slot.
pub proof fn lemma_first_free(t: Seq<PortInfo>)
    requires
        has_free(t),
    ensures
        is_first_free(t, first_free(t)),
        forall|i: int| is_first_free(t, i) ==> i == first_free(t),
{
    let w = choose|i: int| 0 <= i < t.len() && (#[trigger] t[i]).empty();
    lemma_least_free(t, w);
    let m = first_free(t);
    assert forall|i: int| is_first_free(t, i) implies i == m by {
        if i < m {
            assert(!t[i].empty());
        } else if m < i {
            assert(!t[m].empty());
        }
    }
}

/// Each allocation of the run finds an empty slot, and each port is set.
pub open spec fn allocs_fit(t: Seq<PortInfo>, ports: Seq<PortInfo>) -> bool
    decreases ports.len(),
{
    ports.len() == 0 || (has_free(t) && !ports[0].empty() && allocs_fit(
        t.update(first_free(t), ports[0]),
        ports.drop_first(),
    ))
}

/// The addresses that a run of allocations hands out, in order.
pub open spec fn alloc_addresses(t: Seq<PortInfo>, ports: Seq<PortInfo>) -> Seq<int>
    decreases ports.len(),
{
    if ports.len() == 0 {
        Seq::<int>::empty()
    } else {
        seq![first_free(t) + 1] + alloc_addresses(
            t.update(first_free(t), ports[0]),
            ports.drop_first(),
        )
    }
}

/// Whatever the table and the run of allocations, as long as no address is
/// given back in between: every address handed out
/// lies between 1 and the number of slots, was free when the run began, and
/// no two allocations get the same address.
pub proof fn lemma_allocations_are_distinct(t: Seq<PortInfo>, ports: Seq<PortInfo>)
    requires
        allocs_fit(t, ports),
    ensures
        alloc_addresses(t, ports).len() == ports.len(),
        forall|j: int|
            0 <= j < ports.len() ==> 1 <= (#[trigger] alloc_addresses(t, ports)[j]) <= t.len() && t[alloc_addresses(
                t,
                ports,
            )[j] - 1].empty(),
        forall|j: int, k: int|
            0 <= j < k < ports.len() ==> #[trigger] alloc_addresses(t, ports)[j]
                != #[trigger] alloc_addresses(t, ports)[k],
    decreases ports.len(),
{
    if ports.len() > 0 {
        lemma_first_free(t);
        let m = first_free(t);
        let t2 = t.update(m, ports[0]);
        let rest = ports.drop_first();
        lemma_allocations_are_distinct(t2, rest);
        let a = alloc_addresses(t, ports);
        let b = alloc_addresses(t2, rest);
        assert(a == seq![m + 1] + b);
        assert forall|j: int| 0 <= j < ports.len() implies 1 <= (#[trigger] a[j]) <= t.len() && t[a[j]
            - 1].empty() by {
            if j > 0 {
                assert(a[j] == b[j - 1]);
                assert(t2[b[j - 1] - 1].empty());
            }
        }
        assert forall|j: int, k: int| 0 <= j < k < ports.len() implies #[trigger] a[j] != #[trigger] a[k] by {
            assert(a[k] == b[k - 1]);
            assert(t2[b[k - 1] - 1].empty());
            if j > 0 {
                assert(a[j] == b[j - 1]);
            }
        }
    }
}

} // verus!
