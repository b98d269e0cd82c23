use vstd::prelude::*;

verus! {

/// Whether bit `bit` (0 = least significant) of `val` is set.
pub open spec fn bit_set(val: u8, bit: u8) -> bool {
    (val >> bit) & 1 == 1
}

/// Check a specific bit in the byte; 0-indexed from the least significant bit.
pub fn check_bit(val: u8, bit: u8) -> (r: bool)
    requires
        bit < 8,
    ensures
        r == bit_set(val, bit),
{
    ((val >> bit) & 1) == 1
}

/// Setting bit `b` sets it and keeps every other bit.
pub proof fn lemma_set_bit(x: u8, b: u8, c: u8)
    by (bit_vector)
    requires
        b < 8,
        c < 8,
    ensures
        bit_set(x | (1u8 << b), c) == (bit_set(x, c) || b == c),
{
}

/// Clearing bit `b` clears it and keeps every other bit.
pub proof fn lemma_clear_bit(x: u8, b: u8, c: u8)
    by (bit_vector)
    requires
        b < 8,
        c < 8,
    ensures
        bit_set(x & !(1u8 << b), c) == (bit_set(x, c) && b != c),
{
}

/// Replacing the low two bits keeps bits 2..=7.
pub proof fn lemma_replace_low_two_bits(x: u8, m: u8, c: u8)
    by (bit_vector)
    requires
        m < 4,
        2 <= c < 8,
    ensures
        bit_set((x / 4 * 4 + m) as u8, c) == bit_set(x, c),
{
}

} // verus!
