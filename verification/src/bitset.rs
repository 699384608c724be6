//! The 128-bit sets of the stack, kept in `bitvec` bit arrays.

use bitvec::array::BitArray;
use bitvec::order::Lsb0;
use vstd::prelude::*;

verus! {

/// A set of bit positions below 128, stored as a `bitvec` array of sixteen
/// bytes with the least significant bit of each byte first.
#[verifier::external_body]
#[derive(Debug)]
pub struct BitSet128 {
    bits: BitArray<[u8; 16], Lsb0>,
}

/// The indices of the bits that are set in a 128-bit array.
pub uninterp spec fn bits_set(b: BitSet128) -> Set<int>;

/// `BitArray::ZERO`: the array in which no bit is set.
#[verifier::external_body]
pub(crate) fn bits_zero() -> (b: BitSet128)
    ensures
        bits_set(b) == Set::<int>::empty(),
{
    BitSet128 { bits: BitArray::ZERO }
}

/// `BitSlice::set` on the array: writes one bit and leaves the others as
/// they were. The index has to lie within the 128 bits.
#[verifier::external_body]
pub(crate) fn bits_write(b: &mut BitSet128, index: usize, value: bool)
    requires
        index < 128,
    ensures
        bits_set(*final(b)) == (if value {
            bits_set(*old(b)).insert(index as int)
        } else {
            bits_set(*old(b)).remove(index as int)
        }),
{
    b.bits.set(index, value);
}

/// Whether bit `i` is set in `bytes`, counting from the least significant bit
/// of the first byte.
pub open spec fn byte_bit(bytes: Seq<u8>, i: int) -> bool {
    (bytes[i / 8] >> ((i % 8) as u8)) & 1 == 1
}

/// The positions below 128 of the bits that are set in `bytes`.
pub open spec fn set_bits_of(bytes: Seq<u8>) -> Set<int> {
    Set::new(|i: int| 0 <= i < 128 && byte_bit(bytes, i))
}

/// `BitArray::new` on sixteen bytes: bit `i` of the array is bit `i % 8` of
/// byte `i / 8`, the least significant bit of each byte coming first.
#[verifier::external_body]
pub(crate) fn bits_from_bytes(bytes: [u8; 16]) -> (b: BitSet128)
    ensures
        bits_set(b) == set_bits_of(bytes@),
{
    BitSet128 { bits: BitArray::new(bytes) }
}

/// `BitSlice::iter_ones` on the array, collected: the indices of the set
/// bits, each once, in rising order.
#[verifier::external_body]
pub(crate) fn bits_ones(b: &BitSet128) -> (v: Vec<usize>)
    ensures
        forall|k: int| 0 <= k < v.len() ==> bits_set(*b).contains(#[trigger] v[k] as int) && v[k] < 128,
        forall|a: int| bits_set(*b).contains(a) ==> exists|k: int| 0 <= k < v.len() && #[trigger] v[k] == a,
        forall|j: int, k: int| 0 <= j < k < v.len() ==> #[trigger] v[j] < #[trigger] v[k],
{
    b.bits.iter_ones().collect()
}

} // verus!
