//! Properties of the decoder as a whole.
use vstd::prelude::*;
use crate::address::{address_of, displacement_len};
use crate::decoder::{byte_after, decode_at, is_supported, listing, DecodeError};
use crate::fields::{spec_bit0, spec_bit3, spec_mode, spec_rm};
use crate::formats::immediate_len;
use crate::opcode::{classification, InstructionFormat};
use crate::operand::{bracketed, rm_text};
use crate::text::signed_decimal;

verus! {

/// The length in bytes that an instruction's format prescribes, from its
/// leading byte `b0` and the byte `b1` after it (the mode/reg/r-m byte where
/// the format has one): the leading byte, the mode/reg/r-m byte, the
/// displacement that the mode and r/m fields call for, and the immediate.
pub open spec fn instruction_length(b0: u8, b1: u8) -> nat {
    let (op, format) = classification(b0, b1);
    let disp = displacement_len(spec_rm(b1), spec_mode(b1));
    match format {
        InstructionFormat::RegisterMemoryToFromRegister => 2 + disp,
        InstructionFormat::ImmediateToRegisterMemory => 2 + disp + immediate_len(op, b0),
        InstructionFormat::ImmediateToRegister => if spec_bit3(b0) == 1 {
            3
        } else {
            2
        },
        InstructionFormat::MemoryToAccumulator => 3,
        InstructionFormat::AccumulatorToMemory => 3,
        InstructionFormat::ImmediateToAccumulator => if spec_bit0(b0) == 1 {
            3
        } else {
            2
        },
        InstructionFormat::RelativeJump => 2,
        InstructionFormat::RelativeLoop => 2,
        _ => 1,
    }
}

/// Decoding an instruction consumes exactly the length that its format
/// prescribes: it succeeds whenever the buffer holds that many bytes of a
/// supported instruction, reports a truncation only when it does not, and
/// never reads past the end.
pub proof fn lemma_length_is_prescribed(bytes: Seq<u8>, pos: int)
    requires
        0 <= pos < bytes.len(),
    ensures
        decode_at(bytes, pos) matches Ok((_, n)) ==> {
            &&& n == instruction_length(bytes[pos], byte_after(bytes, pos))
            &&& pos + n <= bytes.len()
        },
        is_supported(classification(bytes[pos], byte_after(bytes, pos)).1) && pos
            + instruction_length(bytes[pos], byte_after(bytes, pos)) <= bytes.len()
            ==> decode_at(bytes, pos) is Ok,
        decode_at(bytes, pos) matches Err(DecodeError::Truncated { .. }) ==> pos
            + instruction_length(bytes[pos], byte_after(bytes, pos)) > bytes.len(),
{
}

/// Decoding is a function of the bytes alone: the same buffer always gives
/// the same listing.
pub proof fn lemma_deterministic(a: Seq<u8>, b: Seq<u8>)
    requires
        a == b,
    ensures
        listing(a) == listing(b),
{
}

/// Mode 00 with r/m 110 never resolves to a base expression: it is a direct
/// address, read from two displacement bytes and rendered as the plain
/// signed value in brackets, with no displacement arithmetic.
pub proof fn lemma_direct_address(word: u8, addr: int)
    ensures
        address_of(0, word, 6, false) matches Ok(None),
        displacement_len(6, 0) == 2,
        rm_text(0, word, 6, addr) == bracketed(signed_decimal(addr)),
{
}

} // verus!
