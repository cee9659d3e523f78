//! Bit-field extraction from the leading byte and the mode/reg/r-m byte.
use vstd::prelude::*;

verus! {

/// The mode field of a mode/reg/r-m byte: bits 7 and 6.
pub open spec fn spec_mode(b: u8) -> u8 {
    b / 64
}

/// The reg field of a mode/reg/r-m byte: bits 5 to 3.
pub open spec fn spec_reg(b: u8) -> u8 {
    (b / 8) % 8
}

/// The r/m field of a mode/reg/r-m byte: bits 2 to 0.
pub open spec fn spec_rm(b: u8) -> u8 {
    b % 8
}

/// Bit 1 of a leading byte: the direction bit, or the sign-extend bit of the
/// immediate arithmetic group.
pub open spec fn spec_bit1(b: u8) -> u8 {
    (b / 2) % 2
}

/// Bit 3 of a leading byte: the word-size bit of an immediate-to-register
/// move.
pub open spec fn spec_bit3(b: u8) -> u8 {
    (b / 8) % 2
}

/// Bit 0 of a leading byte: the word-size bit.
pub open spec fn spec_bit0(b: u8) -> u8 {
    b % 2
}

/// The mode field: bits 7 and 6.
pub fn mode_field(b: u8) -> (r: u8)
    ensures
        r == spec_mode(b),
        r < 4,
{
    assert((b >> 6u8) & 0b11u8 == b / 64) by (bit_vector);
    (b >> 6u8) & 0b11u8
}

/// The reg field: bits 5 to 3.
pub fn register_field(b: u8) -> (r: u8)
    ensures
        r == spec_reg(b),
        r < 8,
{
    assert((b >> 3u8) & 0b111u8 == (b / 8) % 8) by (bit_vector);
    (b >> 3u8) & 0b111u8
}

/// The r/m field: bits 2 to 0.
pub fn rm_field(b: u8) -> (r: u8)
    ensures
        r == spec_rm(b),
        r < 8,
{
    assert(b & 0b111u8 == b % 8) by (bit_vector);
    b & 0b111u8
}

/// The direction bit: bit 1; when set, the register operand is the
/// destination.
pub fn direction_field(b: u8) -> (r: u8)
    ensures
        r == spec_bit1(b),
        r < 2,
{
    assert((b >> 1u8) & 1u8 == (b / 2) % 2) by (bit_vector);
    (b >> 1u8) & 1u8
}

/// The sign-extend bit of the immediate arithmetic group: bit 1, where the
/// direction bit sits in other formats.
pub fn sign_field(b: u8) -> (r: u8)
    ensures
        r == spec_bit1(b),
        r < 2,
{
    direction_field(b)
}

/// The word-size bit of an immediate-to-register move: bit 3.
pub fn register_word_field(b: u8) -> (r: u8)
    ensures
        r == spec_bit3(b),
        r < 2,
{
    assert((b >> 3u8) & 1u8 == (b / 8) % 2) by (bit_vector);
    (b >> 3u8) & 1u8
}

/// The word-size bit: bit 0; 0 for 8-bit operands, 1 for 16-bit.
pub fn word_byte_field(b: u8) -> (r: u8)
    ensures
        r == spec_bit0(b),
        r < 2,
{
    assert(b & 1u8 == b % 2) by (bit_vector);
    b & 1u8
}

} // verus!
