use vstd::prelude::*;

verus! {

/// Masking a byte never gives more than the mask.
pub proof fn lemma_and_at_most_mask(x: u8, mask: u8)
    ensures
        x & mask <= mask,
        x & mask <= x,
{
    assert(x & mask <= mask && x & mask <= x) by (bit_vector);
}

} // verus!
