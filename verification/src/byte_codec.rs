//! Little-endian readers and writers for the fixed-width fields of the save
//! area.

use vstd::prelude::*;

verus! {

/// The 16-bit value stored little-endian at `at` in `s`.
pub open spec fn spec_u16_le(s: Seq<u8>, at: int) -> int
    recommends
        0 <= at,
        at + 2 <= s.len(),
{
    s[at] + s[at + 1] * 0x100
}

/// The 32-bit value stored little-endian at `at` in `s`.
pub open spec fn spec_u32_le(s: Seq<u8>, at: int) -> int
    recommends
        0 <= at,
        at + 4 <= s.len(),
{
    s[at] + s[at + 1] * 0x100 + s[at + 2] * 0x1_0000 + s[at + 3] * 0x100_0000
}

/// The 64-bit value stored little-endian at `at` in `s`.
pub open spec fn spec_u64_le(s: Seq<u8>, at: int) -> int
    recommends
        0 <= at,
        at + 8 <= s.len(),
{
    s[at] + s[at + 1] * 0x100 + s[at + 2] * 0x1_0000 + s[at + 3] * 0x100_0000 + s[at + 4]
        * 0x1_0000_0000 + s[at + 5] * 0x100_0000_0000 + s[at + 6] * 0x1_0000_0000_0000 + s[at + 7]
        * 0x100_0000_0000_0000
}

/// Reads the 16-bit value stored little-endian at `at`.
pub fn read_u16_le(bytes: &[u8], at: usize) -> (r: u16)
    requires
        at + 2 <= bytes@.len(),
    ensures
        r == spec_u16_le(bytes@, at as int),
{
    let b0 = bytes[at] as u16;
    let b1 = bytes[at + 1] as u16;
    b0 + b1 * 0x100
}

/// Reads the 32-bit value stored little-endian at `at`.
pub fn read_u32_le(bytes: &[u8], at: usize) -> (r: u32)
    requires
        at + 4 <= bytes@.len(),
    ensures
        r == spec_u32_le(bytes@, at as int),
{
    let b0 = bytes[at] as u32;
    let b1 = bytes[at + 1] as u32;
    let b2 = bytes[at + 2] as u32;
    let b3 = bytes[at + 3] as u32;
    b0 + b1 * 0x100 + b2 * 0x1_0000 + b3 * 0x100_0000
}

/// Reads the 64-bit value stored little-endian at `at`.
pub fn read_u64_le(bytes: &[u8], at: usize) -> (r: u64)
    requires
        at + 8 <= bytes@.len(),
    ensures
        r == spec_u64_le(bytes@, at as int),
{
    let b0 = bytes[at] as u64;
    let b1 = bytes[at + 1] as u64;
    let b2 = bytes[at + 2] as u64;
    let b3 = bytes[at + 3] as u64;
    let b4 = bytes[at + 4] as u64;
    let b5 = bytes[at + 5] as u64;
    let b6 = bytes[at + 6] as u64;
    let b7 = bytes[at + 7] as u64;
    b0 + b1 * 0x100 + b2 * 0x1_0000 + b3 * 0x100_0000 + b4 * 0x1_0000_0000 + b5 * 0x100_0000_0000
        + b6 * 0x1_0000_0000_0000 + b7 * 0x100_0000_0000_0000
}

/// Writes `v` little-endian into the eight bytes at `at`, leaving every
/// other byte as it was.
pub fn write_u64_le(bytes: &mut Vec<u8>, at: usize, v: u64)
    requires
        at + 8 <= old(bytes)@.len(),
    ensures
        final(bytes)@.len() == old(bytes)@.len(),
        spec_u64_le(final(bytes)@, at as int) == v,
        forall|i: int|
            0 <= i < old(bytes)@.len() && !(at <= i < at + 8) ==> final(bytes)@[i] == old(
                bytes,
            )@[i],
{
    let n = bytes.len();
    assert(at + 8 <= n);
    proof {
        assert((v & 0xff) < 0x100 && ((v >> 8) & 0xff) < 0x100 && ((v >> 16) & 0xff) < 0x100 && ((v
            >> 24) & 0xff) < 0x100 && ((v >> 32) & 0xff) < 0x100 && ((v >> 40) & 0xff) < 0x100 && ((
        v >> 48) & 0xff) < 0x100 && ((v >> 56) & 0xff) < 0x100) by (bit_vector);
        assert((v & 0xff) + ((v >> 8) & 0xff) * 0x100 + ((v >> 16) & 0xff) * 0x1_0000 + ((v >> 24)
            & 0xff) * 0x100_0000 + ((v >> 32) & 0xff) * 0x1_0000_0000 + ((v >> 40) & 0xff)
            * 0x100_0000_0000 + ((v >> 48) & 0xff) * 0x1_0000_0000_0000 + ((v >> 56) & 0xff)
            * 0x100_0000_0000_0000 == v) by (bit_vector);
    }
    bytes.set(at, (v & 0xff) as u8);
    bytes.set(at + 1, ((v >> 8) & 0xff) as u8);
    bytes.set(at + 2, ((v >> 16) & 0xff) as u8);
    bytes.set(at + 3, ((v >> 24) & 0xff) as u8);
    bytes.set(at + 4, ((v >> 32) & 0xff) as u8);
    bytes.set(at + 5, ((v >> 40) & 0xff) as u8);
    bytes.set(at + 6, ((v >> 48) & 0xff) as u8);
    bytes.set(at + 7, ((v >> 56) & 0xff) as u8);
}

} // verus!
