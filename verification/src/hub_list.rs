//! The supervisor's list of hubs, kept in an `arrayvec` vector of fixed
//! capacity.

use crate::driver::hub::Hub;
use arrayvec::ArrayVec;
use vstd::prelude::*;

verus! {

/// How many hubs the supervisor can keep.
pub const NR_HUBS: usize = 8;

#[verifier::external_type_specification]
#[verifier::external_body]
#[verifier::reject_recursive_types(T)]
pub struct ExArrayVec<T, const CAP: usize>(ArrayVec<T, CAP>);

/// The hubs that the list holds, in order.
pub uninterp spec fn hubs_of(list: ArrayVec<Hub, NR_HUBS>) -> Seq<Hub>;

/// `ArrayVec::new`: a list that holds nothing.
#[verifier::external_body]
pub(crate) fn hubs_new() -> (list: ArrayVec<Hub, NR_HUBS>)
    ensures
        hubs_of(list) == Seq::<Hub>::empty(),
{
    ArrayVec::new()
}

/// `ArrayVec::len`: the number of hubs in the list, which never exceeds the
/// capacity.
#[verifier::external_body]
pub(crate) fn hubs_len(list: &ArrayVec<Hub, NR_HUBS>) -> (n: usize)
    ensures
        n == hubs_of(*list).len(),
        n <= NR_HUBS,
{
    list.len()
}

/// Indexing through the slice that the vector dereferences to: a copy of the
/// hub at `index`.
#[verifier::external_body]
pub(crate) fn hubs_get(list: &ArrayVec<Hub, NR_HUBS>, index: usize) -> (hub: Hub)
    requires
        index < hubs_of(*list).len(),
    ensures
        hub == hubs_of(*list)[index as int],
{
    list[index]
}

/// Assignment through the slice that the vector dereferences to: the hub at
/// `index` is replaced and the others stay.
#[verifier::external_body]
pub(crate) fn hubs_set(list: &mut ArrayVec<Hub, NR_HUBS>, index: usize, hub: Hub)
    requires
        index < hubs_of(*old(list)).len(),
    ensures
        hubs_of(*final(list)) == hubs_of(*old(list)).update(index as int, hub),
{
    list[index] = hub;
}

/// `ArrayVec::try_push`: appends the hub if the list is not full, and says
/// whether it did; a full list stays as it is.
#[verifier::external_body]
pub(crate) fn hubs_try_push(list: &mut ArrayVec<Hub, NR_HUBS>, hub: Hub) -> (pushed: bool)
    ensures
        pushed == (hubs_of(*old(list)).len() < NR_HUBS),
        hubs_of(*final(list)) == (if pushed {
            hubs_of(*old(list)).push(hub)
        } else {
            hubs_of(*old(list))
        }),
{
    list.try_push(hub).is_ok()
}

/// `ArrayVec::swap_remove`: takes the hub at `index` out and puts the last
/// hub of the list in its place.
#[verifier::external_body]
pub(crate) fn hubs_swap_remove(list: &mut ArrayVec<Hub, NR_HUBS>, index: usize) -> (hub: Hub)
    requires
        index < hubs_of(*old(list)).len(),
    ensures
        hub == hubs_of(*old(list))[index as int],
        hubs_of(*final(list)) == hubs_of(*old(list)).update(
            index as int,
            hubs_of(*old(list)).last(),
        ).drop_last(),
{
    list.swap_remove(index)
}

} // verus!
