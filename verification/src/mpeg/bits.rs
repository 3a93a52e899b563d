//! Masked read-modify-write of the bits of one byte.
//!
//! Several header fields share a byte. A field is written by replacing
//! exactly the bits under its mask, so that the bits of its neighbours stay
//! as they were.

use vstd::prelude::*;

verus! {

/// `byte` with the bits under `mask` replaced by those of `value`.
pub open spec fn spec_merge_bits(byte: u8, mask: u8, value: u8) -> u8 {
    (byte & !mask) | (value & mask)
}

/// Replace the bits of `byte` under `mask` by those of `value`.
#[verifier::when_used_as_spec(spec_merge_bits)]
pub fn merge_bits(byte: u8, mask: u8, value: u8) -> (r: u8)
    ensures
        r == spec_merge_bits(byte, mask, value),
        r & mask == value & mask,
        r & !mask == byte & !mask,
{
    proof {
        lemma_merge_bits(byte, mask, value);
    }
    (byte & !mask) | (value & mask)
}

/// A merge reads back under its mask, keeps what lies outside it, and
/// depends on `value` only through the bits under the mask.
pub proof fn lemma_merge_bits(byte: u8, mask: u8, value: u8)
    by (bit_vector)
    ensures
        spec_merge_bits(byte, mask, value) & mask == value & mask,
        spec_merge_bits(byte, mask, value) & !mask == byte & !mask,
        spec_merge_bits(byte, mask, value & mask) == spec_merge_bits(byte, mask, value),
{
}

/// Of two merges under the same mask only the second is seen.
pub proof fn lemma_merge_bits_last_wins(byte: u8, mask: u8, first: u8, second: u8)
    by (bit_vector)
    ensures
        spec_merge_bits(spec_merge_bits(byte, mask, first), mask, second) == spec_merge_bits(
            byte,
            mask,
            second,
        ),
{
}

} // verus!
