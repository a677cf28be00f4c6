//! Bit-level helpers shared by the bitmap types and the layout decoder.

use vstd::prelude::*;

verus! {

/// Bit `i` of `bits` is set. Meaningful for `i < 64`.
pub open spec fn bit_is_set(bits: u64, i: u64) -> bool
    recommends
        i < 64,
{
    bits & (1u64 << i) != 0
}

/// Bit `i` of the 32-bit value `bits` is set. Meaningful for `i < 32`.
pub open spec fn bit32_is_set(bits: u32, i: u32) -> bool
    recommends
        i < 32,
{
    bits & (1u32 << i) != 0
}

/// Bit `i` of the 16-bit value `bits` is set. Meaningful for `i < 16`.
pub open spec fn bit16_is_set(bits: u16, i: u16) -> bool
    recommends
        i < 16,
{
    bits & (1u16 << i) != 0
}

/// `v` rounded up to the next multiple of 64.
pub open spec fn spec_round_up_64(v: int) -> int {
    ((v + 63) / 64) * 64
}

/// Bounds of rounding up: the result is at least `v`, gains less than 64,
/// and is a multiple of 64.
pub proof fn lemma_round_up_64_bounds(v: int)
    requires
        v >= 0,
    ensures
        v <= spec_round_up_64(v) < v + 64,
        spec_round_up_64(v) % 64 == 0,
{
    assert(v <= ((v + 63) / 64) * 64 < v + 64 && (((v + 63) / 64) * 64) % 64 == 0)
        by (nonlinear_arith);
}

/// Rounds `v` up to the next multiple of 64.
pub fn round_up_64(v: u64) -> (r: u64)
    requires
        v + 63 <= u64::MAX,
    ensures
        r == spec_round_up_64(v as int),
{
    ((v + 63) / 64) * 64
}

/// After setting bit `i`, bit `j` is set exactly when it was set before or `j == i`.
pub proof fn lemma_bit_or_single(bits: u64, i: u64, j: u64)
    requires
        i < 64,
        j < 64,
    ensures
        bit_is_set(bits | (1u64 << i), j) == (bit_is_set(bits, j) || i == j),
{
    assert((bits | (1u64 << i)) & (1u64 << j) != 0 <==> (bits & (1u64 << j) != 0 || i == j))
        by (bit_vector)
        requires
            i < 64 && j < 64,
    ;
}

/// A bitmap whose value is zero has no bit set.
pub proof fn lemma_zero_has_no_bit(i: u64)
    requires
        i < 64,
    ensures
        !bit_is_set(0u64, i),
{
    assert(0u64 & (1u64 << i) == 0) by (bit_vector);
}

} // verus!
