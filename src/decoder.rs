//! The decode driver: classifies each leading byte, runs the handler of its
//! format, and collects the lines.
use vstd::prelude::*;
use crate::cursor::ByteCursor;
use crate::formats::{
    accumulator_memory_form, accumulator_to_memory, handle_jumps, handle_loops,
    immediate_accumulator_form, immediate_memory_form, immediate_register_form,
    immediate_to_accumulator, immediate_to_register, immediate_to_register_memory,
    memory_accumulator_form, memory_to_accumulator, register_memory_form,
    register_memory_to_from_register, relative_form,
};
use crate::opcode::{classification, classify, in_arithmetic_group, InstructionFormat, Op};

verus! {

/// Why the instruction at `offset` could not be decoded.
#[derive(Clone, Copy, Debug, PartialEq, Eq, Structural)]
pub enum DecodeError {
    /// The buffer ends inside the instruction that starts at `offset`, the
    /// end of the last complete instruction.
    Truncated { offset: usize },
    /// `byte` at `offset` is no opcode of the supported set.
    InvalidOpcode { offset: usize, byte: u8 },
    /// `byte` at `offset` is a segment-register move, which is not supported.
    Unimplemented { offset: usize, byte: u8 },
}

/// The byte after `pos`, or 0 past the end.
pub open spec fn byte_after(bytes: Seq<u8>, pos: int) -> u8 {
    if pos + 1 < bytes.len() {
        bytes[pos + 1]
    } else {
        0
    }
}

/// What the handler of `format` renders and reads from `rest`.
pub open spec fn form_of(op: Op, format: InstructionFormat, b0: u8, rest: Seq<u8>) -> Option<
    (Seq<char>, nat),
> {
    match format {
        InstructionFormat::RegisterMemoryToFromRegister => register_memory_form(op, b0, rest),
        InstructionFormat::ImmediateToRegisterMemory => immediate_memory_form(op, b0, rest),
        InstructionFormat::ImmediateToRegister => immediate_register_form(op, b0, rest),
        InstructionFormat::MemoryToAccumulator => memory_accumulator_form(op, rest),
        InstructionFormat::AccumulatorToMemory => accumulator_memory_form(op, rest),
        InstructionFormat::ImmediateToAccumulator => immediate_accumulator_form(op, b0, rest),
        InstructionFormat::RelativeJump => relative_form(op, rest),
        InstructionFormat::RelativeLoop => relative_form(op, rest),
        _ => None,
    }
}

/// Whether a format is one that this decoder renders.
pub open spec fn is_supported(format: InstructionFormat) -> bool {
    !(format is Invalid || format is RegisterMemoryToSegmentRegister
        || format is SegmentRegisterToRegisterMemory)
}

/// The instruction that starts at `pos`: its text and its length in bytes,
/// or why it cannot be decoded.
pub open spec fn decode_at(bytes: Seq<u8>, pos: int) -> Result<(Seq<char>, nat), DecodeError> {
    let b0 = bytes[pos];
    let rest = bytes.skip(pos + 1);
    let (op, format) = classification(b0, byte_after(bytes, pos));
    if in_arithmetic_group(b0) && rest.len() == 0 {
        Err(DecodeError::Truncated { offset: pos as usize })
    } else if format is Invalid {
        Err(DecodeError::InvalidOpcode { offset: pos as usize, byte: b0 })
    } else if !is_supported(format) {
        Err(DecodeError::Unimplemented { offset: pos as usize, byte: b0 })
    } else {
        match form_of(op, format, b0, rest) {
            Some((text, n)) => Ok((text, n + 1)),
            None => Err(DecodeError::Truncated { offset: pos as usize }),
        }
    }
}

/// Decodes the instruction at the cursor. Returns `None` when the cursor is
/// exhausted. On success the cursor moves past the instruction; on a
/// truncated instruction it stands at the end of the buffer; on an invalid or
/// unsupported opcode it stands just past that one byte, so that a caller may
/// skip it or stop.
pub fn decode_next(cursor: &mut ByteCursor) -> (r: Option<Result<String, DecodeError>>)
    requires
        old(cursor).wf(),
    ensures
        final(cursor).wf(),
        final(cursor).input() == old(cursor).input(),
        old(cursor).offset() == old(cursor).input().len() ==> {
            &&& r is None
            &&& final(cursor).offset() == old(cursor).offset()
        },
        old(cursor).offset() < old(cursor).input().len() ==> match decode_at(
            old(cursor).input(),
            old(cursor).offset() as int,
        ) {
            Ok((text, n)) => {
                &&& r matches Some(Ok(s)) && s@ == text
                &&& final(cursor).offset() == old(cursor).offset() + n
            },
            Err(e) => {
                &&& r == Some(Err::<String, DecodeError>(e))
                &&& final(cursor).offset() == if e is Truncated {
                    old(cursor).input().len() as int
                } else {
                    old(cursor).offset() + 1int
                }
            },
        },
{
    let start = cursor.position();
    let instruction = match cursor.next_byte() {
        Some(b) => b,
        None => return None,
    };
    let next = match cursor.peek() {
        Some(b) => b,
        None => {
            if 0x80 <= instruction && instruction <= 0x83 {
                return Some(Err(DecodeError::Truncated { offset: start }));
            }
            0
        },
    };
    let (op, format) = classify(instruction, next);
    let line = match format {
        InstructionFormat::RegisterMemoryToFromRegister => {
            register_memory_to_from_register(op, cursor, instruction)
        },
        InstructionFormat::ImmediateToRegisterMemory => {
            immediate_to_register_memory(op, cursor, instruction)
        },
        InstructionFormat::ImmediateToRegister => immediate_to_register(op, cursor, instruction),
        InstructionFormat::MemoryToAccumulator => memory_to_accumulator(op, cursor),
        InstructionFormat::AccumulatorToMemory => accumulator_to_memory(op, cursor),
        InstructionFormat::ImmediateToAccumulator => {
            immediate_to_accumulator(op, cursor, instruction)
        },
        InstructionFormat::RelativeJump => handle_jumps(op, cursor),
        InstructionFormat::RelativeLoop => handle_loops(op, cursor),
        InstructionFormat::RegisterMemoryToSegmentRegister
        | InstructionFormat::SegmentRegisterToRegisterMemory => {
            return Some(Err(DecodeError::Unimplemented { offset: start, byte: instruction }));
        },
        InstructionFormat::Invalid => {
            return Some(Err(DecodeError::InvalidOpcode { offset: start, byte: instruction }));
        },
    };
    match line {
        Some(s) => Some(Ok(s)),
        None => Some(Err(DecodeError::Truncated { offset: start })),
    }
}

/// `r` with `p` put before its text; an error stays as it is.
pub open spec fn prefixed(p: Seq<char>, r: Result<Seq<char>, DecodeError>) -> Result<
    Seq<char>,
    DecodeError,
> {
    match r {
        Ok(text) => Ok(p + text),
        Err(e) => Err(e),
    }
}

/// The lines of the instructions from `pos` to the end of `bytes`, each
/// ended by a line break, or the first error.
pub open spec fn decode_from(bytes: Seq<u8>, pos: int) -> Result<Seq<char>, DecodeError>
    decreases bytes.len() - pos,
{
    if pos < 0 || pos >= bytes.len() {
        Ok(Seq::empty())
    } else {
        match decode_at(bytes, pos) {
            Ok((line, n)) => prefixed(line + "\n"@, decode_from(bytes, pos + n)),
            Err(e) => Err(e),
        }
    }
}

/// The whole listing: a `bits 16` line, a blank line, then one line per
/// instruction in input order; or the first error.
pub open spec fn listing(bytes: Seq<u8>) -> Result<Seq<char>, DecodeError> {
    prefixed("bits 16\n\n"@, decode_from(bytes, 0))
}

/// Decodes the whole buffer into a listing, stopping at the first
/// instruction that cannot be decoded.
pub fn process_bin(contents: &Vec<u8>) -> (r: Result<String, DecodeError>)
    ensures
        match listing(contents@) {
            Ok(text) => r matches Ok(s) && s@ == text,
            Err(e) => r == Err::<String, DecodeError>(e),
        },
{
    let mut output = String::from_str("bits 16\n\n");
    let mut cursor = ByteCursor::new(contents.as_slice());
    while !cursor.is_exhausted()
        invariant
            cursor.wf(),
            cursor.input() == contents@,
            listing(contents@) == prefixed(output@, decode_from(contents@, cursor.offset() as int)),
        decreases contents@.len() - cursor.offset(),
    {
        let ghost pos = cursor.offset() as int;
        let ghost before = output@;
        match decode_next(&mut cursor) {
            Some(Ok(line)) => {
                output.append(line.as_str());
                output.append("\n");
                proof {
                    let n = cursor.offset() - pos;
                    let tail = decode_from(contents@, pos + n);
                    assert(decode_from(contents@, pos) == prefixed(line@ + "\n"@, tail));
                    match tail {
                        Ok(t) => {
                            assert(before + (line@ + "\n"@ + t) =~= output@ + t);
                        },
                        Err(_) => {},
                    }
                }
            },
            Some(Err(e)) => {
                return Err(e);
            },
            None => {},
        }
    }
    assert(output@ + Seq::<char>::empty() =~= output@);
    Ok(output)
}

} // verus!
