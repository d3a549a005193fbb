//! The fixed size bit set of `fixedbitset`, used to record visited nodes.
use fixedbitset::FixedBitSet;
use vstd::prelude::*;

verus! {

/// The bit set of `fixedbitset`; the library only carries it through the calls below.
#[verifier::external_type_specification]
#[verifier::external_body]
pub struct ExFixedBitSet(FixedBitSet);

/// The bits that are set in a bit set.
pub uninterp spec fn bitset_bits(b: FixedBitSet) -> Set<nat>;

/// The number of bits a bit set was made with.
pub uninterp spec fn bitset_len(b: FixedBitSet) -> nat;

/// `FixedBitSet::with_capacity`: a bit set of `bits` bits, none of them set.
#[verifier::external_body]
pub(crate) fn bitset_with_capacity(bits: usize) -> (r: FixedBitSet)
    ensures
        bitset_len(r) == bits,
        bitset_bits(r) == Set::<nat>::empty(),
{
    FixedBitSet::with_capacity(bits)
}

/// `FixedBitSet::put`: sets `bit`, which must be below the length, and returns whether it
/// was set before. The length does not change.
#[verifier::external_body]
pub(crate) fn bitset_put(b: &mut FixedBitSet, bit: usize) -> (r: bool)
    requires
        bit < bitset_len(*old(b)),
    ensures
        r == bitset_bits(*old(b)).contains(bit as nat),
        bitset_bits(*final(b)) == bitset_bits(*old(b)).insert(bit as nat),
        bitset_len(*final(b)) == bitset_len(*old(b)),
{
    b.put(bit)
}

/// `FixedBitSet::contains`: whether `bit` is set; a bit that was never set reads as unset.
#[verifier::external_body]
pub(crate) fn bitset_contains(b: &FixedBitSet, bit: usize) -> (r: bool)
    ensures
        r == bitset_bits(*b).contains(bit as nat),
{
    b.contains(bit)
}

/// `FixedBitSet::clear`: unsets every bit; the length does not change.
#[verifier::external_body]
pub(crate) fn bitset_clear(b: &mut FixedBitSet)
    ensures
        bitset_bits(*final(b)) == Set::<nat>::empty(),
        bitset_len(*final(b)) == bitset_len(*old(b)),
{
    b.clear()
}

} // verus!
