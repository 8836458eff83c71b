//! Pure bit-mask helpers shared by the register update primitives.

use vstd::prelude::*;

verus! {

/// Mask with every bit in `[low, high]` (inclusive) set and every other bit
/// clear.
pub open spec fn spec_bit_range_mask(high: u64, low: u64) -> u64
    recommends
        low <= high <= 63,
{
    (!0u64 << low) & (!0u64 >> ((63 - high) as u64))
}

/// Bit `i` of `spec_bit_range_mask(high, low)` is set exactly when
/// `low <= i <= high`.
pub proof fn lemma_bit_range_mask_bits(high: u64, low: u64)
    requires
        low <= high,
        high <= 63,
    ensures
        forall|i: u64|
            i <= 63 ==> #[trigger] ((spec_bit_range_mask(high, low) >> i) & 1) == (
            if low <= i <= high {
                1u64
            } else {
                0u64
            }),
{
    assert(forall|i: u64|
        i <= 63 ==> #[trigger] ((((!0u64 << low) & (!0u64 >> ((63 - high) as u64))) >> i) & 1)
            == (if low <= i <= high {
            1u64
        } else {
            0u64
        })) by (bit_vector)
        requires
            low <= high,
            high <= 63,
    ;
}

/// All bits in `[low, high]` inclusive set, the rest clear.
pub fn bit_range_mask(high: u64, low: u64) -> (r: u64)
    requires
        low <= high,
        high <= 63,
    ensures
        r == spec_bit_range_mask(high, low),
        forall|i: u64|
            i <= 63 ==> #[trigger] ((r >> i) & 1) == (if low <= i <= high {
                1u64
            } else {
                0u64
            }),
{
    let shift: u64 = 63 - high;
    let r: u64 = (!0u64 << low) & (!0u64 >> shift);
    proof {
        lemma_bit_range_mask_bits(high, low);
    }
    r
}

} // verus!
