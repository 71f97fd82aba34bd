//! Primitives shared by the wire-format decoders.

use vstd::prelude::*;

verus! {

/// The 16-bit value whose little-endian encoding is `lo`, `hi`.
pub open spec fn spec_le_u16(lo: u8, hi: u8) -> u16 {
    (lo as int + 256 * (hi as int)) as u16
}

/// Whether bit `n` of `r` is set, bit 0 being the least significant.
pub open spec fn spec_bit(r: u16, n: u16) -> bool {
    (r >> n) & 1 == 1
}

/// A raw value whose bit `n` marks "no reading": absent when the bit is
/// set, the unchanged raw value otherwise.
pub open spec fn spec_unless_flagged(r: u16, n: u16) -> Option<u16> {
    if spec_bit(r, n) {
        None
    } else {
        Some(r)
    }
}

/// Reads a little-endian 16-bit value from its two bytes.
pub fn le_u16(lo: u8, hi: u8) -> (r: u16)
    ensures
        r == spec_le_u16(lo, hi),
        r == lo as int + 256 * (hi as int),
{
    let low: u16 = lo as u16;
    let high: u16 = hi as u16;
    low + 256 * high
}

/// Maps a raw value to "no reading" when its bit `n` is set.
pub(crate) fn unless_flagged(r: u16, n: u16) -> (v: Option<u16>)
    requires
        n < 16,
    ensures
        v == spec_unless_flagged(r, n),
{
    if (r >> n) & 1 == 1 {
        None
    } else {
        Some(r)
    }
}

/// Bit 15 is set exactly on the upper half of the 16-bit range, and bit 14
/// exactly on the second and fourth quarter.
pub proof fn lemma_flag_bits(r: u16)
    ensures
        spec_bit(r, 15) <==> r >= 0x8000,
        spec_bit(r, 14) <==> (r / 0x4000) % 2 == 1,
{
    assert(((r >> 15u16) & 1 == 1) <==> r >= 0x8000) by (bit_vector);
    assert(((r >> 14u16) & 1 == 1) <==> (r / 0x4000) % 2 == 1) by (bit_vector);
}

} // verus!
