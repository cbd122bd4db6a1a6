//! Repacking of a full 64-bit cell identifier into the two key shapes.

use vstd::prelude::*;

verus! {

/// Mask keeping 32 bits of an identifier once the 12 finest hierarchy bits
/// have been shifted off.
pub const HIGH_MASK: u64 = 0xFFFF_FFFF;

/// Mask keeping the low 52 bits of an identifier: the hierarchy-digit
/// payload, chosen because 52 bits fit exactly in a double's mantissa.
pub const LOW_MASK: u64 = 0xF_FFFF_FFFF_FFFF;

/// The high key of a full identifier: shifted right by 12 bits, then
/// truncated to 32 bits.
pub open spec fn high_bits(id: u64) -> u64 {
    (id >> 12) & HIGH_MASK
}

/// The low key of a full identifier: its 52 least significant bits.
pub open spec fn low_bits(id: u64) -> u64 {
    id & LOW_MASK
}

/// Whatever the identifier, the high key has its upper 32 bits zero.
pub proof fn lemma_high_bits_fit(id: u64)
    ensures
        high_bits(id) >> 32 == 0,
        high_bits(id) < 0x1_0000_0000,
{
    assert(((id >> 12) & 0xFFFF_FFFFu64) >> 32 == 0) by (bit_vector);
    assert(((id >> 12) & 0xFFFF_FFFFu64) < 0x1_0000_0000) by (bit_vector);
}

/// Whatever the identifier, the low key has its upper 12 bits zero.
pub proof fn lemma_low_bits_fit(id: u64)
    ensures
        low_bits(id) >> 52 == 0,
        low_bits(id) < 0x10_0000_0000_0000,
{
    assert((id & 0xF_FFFF_FFFF_FFFFu64) >> 52 == 0) by (bit_vector);
    assert((id & 0xF_FFFF_FFFF_FFFFu64) < 0x10_0000_0000_0000) by (bit_vector);
}

/// Extracts the 32-bit high key from a full identifier, widened to 64 bits.
pub fn repack_high(id: u64) -> (key: u64)
    ensures
        key == high_bits(id),
        key >> 32 == 0,
{
    proof {
        lemma_high_bits_fit(id);
    }
    (id >> 12) & HIGH_MASK
}

/// Extracts the 52-bit low key from a full identifier.
pub fn repack_low(id: u64) -> (key: u64)
    ensures
        key == low_bits(id),
        key >> 52 == 0,
{
    proof {
        lemma_low_bits_fit(id);
    }
    id & LOW_MASK
}

} // verus!
