//! The boundary step: encode a validated point, repack its identifier, and
//! collapse every failure to the sentinel 0.

use vstd::prelude::*;
use crate::pack::{high_bits, low_bits, lemma_high_bits_fit, lemma_low_bits_fit, repack_high,
    repack_low};
use crate::resolution::{CellResolution, MAX_RESOLUTION};

verus! {

#[verifier::external_type_specification]
#[verifier::external_body]
pub struct ExLatLng(h3o::LatLng);

/// The full 64-bit identifier of the cell that contains the point `ll` at
/// resolution `res`; the encoding is a function of the point and the
/// resolution alone.
pub uninterp spec fn cell_id_of(ll: h3o::LatLng, res: u8) -> u64;

/// Relies on h3o's `LatLng::to_cell`, with `Resolution::try_from` (which
/// accepts exactly the values 0 through 15) converting the resolution on
/// the way in and the `u64` conversion of `CellIndex` reading the raw
/// identifier on the way out: the cell a point falls in at a resolution
/// depends on nothing but those two arguments.
#[verifier::external_body]
fn encode_cell_id(ll: &h3o::LatLng, res: u8) -> (id: u64)
    requires
        res <= MAX_RESOLUTION,
    ensures
        id == cell_id_of(*ll, res),
{
    let resolution = h3o::Resolution::try_from(res).unwrap();
    u64::from(ll.to_cell(resolution))
}

/// The high key owed for a point and a raw resolution: the repacked upper
/// bits of the cell identifier, or the sentinel 0 for a resolution outside
/// the supported set.
pub open spec fn key_high(ll: h3o::LatLng, res: u8) -> u64 {
    if res <= MAX_RESOLUTION {
        high_bits(cell_id_of(ll, res))
    } else {
        0
    }
}

/// The low key owed for a point and a raw resolution: the low 52 bits of
/// the cell identifier, or the sentinel 0 for a resolution outside the
/// supported set.
pub open spec fn key_low(ll: h3o::LatLng, res: u8) -> u64 {
    if res <= MAX_RESOLUTION {
        low_bits(cell_id_of(ll, res))
    } else {
        0
    }
}

/// Whatever the point and the raw resolution, the high key fits in 32 bits
/// and the low key in 52.
pub proof fn lemma_keys_bounded(ll: h3o::LatLng, res: u8)
    ensures
        key_high(ll, res) >> 32 == 0,
        key_low(ll, res) >> 52 == 0,
{
    lemma_high_bits_fit(cell_id_of(ll, res));
    lemma_low_bits_fit(cell_id_of(ll, res));
    assert(0u64 >> 32 == 0) by (bit_vector);
    assert(0u64 >> 52 == 0) by (bit_vector);
}

/// For a supported resolution, the two keys are exactly the two repackings
/// of the same full 64-bit cell identifier.
pub proof fn lemma_keys_from_identifier(ll: h3o::LatLng, res: u8)
    requires
        res <= MAX_RESOLUTION,
    ensures
        key_high(ll, res) == (cell_id_of(ll, res) >> 12) & 0xFFFF_FFFFu64,
        key_low(ll, res) == cell_id_of(ll, res) & 0xF_FFFF_FFFF_FFFFu64,
{
}

/// Two invocations on the same point and resolution return the same high
/// key: the computation has no hidden state.
pub proof fn lemma_key_high_deterministic(ll: h3o::LatLng, res: u8, first: u64, second: u64)
    requires
        first == key_high(ll, res),
        second == key_high(ll, res),
    ensures
        first == second,
{
}

/// Two invocations on the same point and resolution return the same low
/// key: the computation has no hidden state.
pub proof fn lemma_key_low_deterministic(ll: h3o::LatLng, res: u8, first: u64, second: u64)
    requires
        first == key_low(ll, res),
        second == key_low(ll, res),
    ensures
        first == second,
{
}

/// Encodes the point at the given raw resolution and returns the 32-bit
/// high key, widened to 64 bits; the sentinel 0 for an unsupported
/// resolution.
pub fn cell_key_high(ll: &h3o::LatLng, res: u8) -> (key: u64)
    ensures
        key == key_high(*ll, res),
        key >> 32 == 0,
{
    proof {
        lemma_keys_bounded(*ll, res);
    }
    match CellResolution::try_from_u8(res) {
        Some(r) => repack_high(encode_cell_id(ll, r.value)),
        None => 0,
    }
}

/// Encodes the point at the given raw resolution and returns the 52-bit
/// low key; the sentinel 0 for an unsupported resolution.
pub fn cell_key_low(ll: &h3o::LatLng, res: u8) -> (key: u64)
    ensures
        key == key_low(*ll, res),
        key >> 52 == 0,
{
    proof {
        lemma_keys_bounded(*ll, res);
    }
    match CellResolution::try_from_u8(res) {
        Some(r) => repack_low(encode_cell_id(ll, r.value)),
        None => 0,
    }
}

/// The whole boundary step over a point that coordinate validation may
/// already have rejected: a missing point collapses to the sentinel 0,
/// a present one yields its high key.
pub fn cell_key_high_checked(ll: Option<h3o::LatLng>, res: u8) -> (key: u64)
    ensures
        ll matches Some(l) ==> key == key_high(l, res),
        ll is None ==> key == 0,
        key >> 32 == 0,
{
    proof {
        assert(0u64 >> 32 == 0) by (bit_vector);
    }
    match ll {
        Some(l) => cell_key_high(&l, res),
        None => 0,
    }
}

/// The whole boundary step for the low key: a missing point collapses to
/// the sentinel 0, a present one yields its low key.
pub fn cell_key_low_checked(ll: Option<h3o::LatLng>, res: u8) -> (key: u64)
    ensures
        ll matches Some(l) ==> key == key_low(l, res),
        ll is None ==> key == 0,
        key >> 52 == 0,
{
    proof {
        assert(0u64 >> 52 == 0) by (bit_vector);
    }
    match ll {
        Some(l) => cell_key_low(&l, res),
        None => 0,
    }
}

} // verus!
