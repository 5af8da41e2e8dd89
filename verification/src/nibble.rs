//! Four-bit words: the value range shared by registers and memory cells.

use vstd::prelude::*;

verus! {

/// Largest value a four-bit word can hold.
pub const NIBBLE_MAX: u8 = 15;

/// The low four bits of `value`, as a number in `0..=15`.
pub open spec fn low_nibble(value: u8) -> u8 {
    value % 16
}

/// Whether `value` fits in four bits.
pub open spec fn is_nibble(value: u8) -> bool {
    value <= NIBBLE_MAX
}

/// Masking with `0x0F` keeps exactly the remainder modulo 16.
pub proof fn lemma_mask_is_remainder(value: u8)
    ensures
        value & 0x0F == low_nibble(value),
        is_nibble(low_nibble(value)),
        is_nibble(value) ==> low_nibble(value) == value,
{
    assert(value & 0x0F == value % 16) by (bit_vector);
}

/// Truncates `value` to its low four bits.
pub fn mask(value: u8) -> (masked: u8)
    ensures
        masked == low_nibble(value),
        is_nibble(masked),
        is_nibble(value) ==> masked == value,
{
    proof {
        lemma_mask_is_remainder(value);
    }
    value & 0x0F
}

} // verus!
