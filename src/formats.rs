//! The format handlers. Each reads the bytes that follow the leading byte in
//! its format and renders one instruction; the `*_form` spec functions say
//! what it renders and how many bytes it reads from `rest`, the bytes after
//! the leading byte, or `None` when `rest` ends too early.
use vstd::prelude::*;
use crate::address::{
    displacement_len, register_of, which_displacement, EffectiveAddressCalculation,
};
use crate::cursor::ByteCursor;
use crate::fields::{
    direction_field, mode_field, register_field, register_word_field, rm_field, sign_field,
    spec_bit0, spec_bit1, spec_bit3, spec_mode, spec_reg, spec_rm, word_byte_field,
};
use crate::opcode::Op;
use crate::operand::{
    direct_text, push_direct, read_signed, register_operand, rm_operand, rm_text, sext8,
    signed_at, two_operand_line, two_operands,
};
use crate::text::{push_signed, signed_decimal};

verus! {

/// What a handler promises: on `Some(text, n)` of its form it returns the
/// text and reads `n` bytes; on `None` it returns `None` with the cursor at
/// the end of the buffer.
pub open spec fn handled(
    form: Option<(Seq<char>, nat)>,
    r: Option<String>,
    before: ByteCursor,
    after: ByteCursor,
) -> bool {
    &&& after.wf()
    &&& after.input() == before.input()
    &&& match form {
        Some((text, n)) => {
            &&& r matches Some(s) && s@ == text
            &&& after.offset() == before.offset() + n
        },
        None => {
            &&& r is None
            &&& after.offset() == before.input().len()
        },
    }
}

/// Register/memory to or from register: a mode/reg/r-m byte, then the
/// displacement; the direction bit puts the register first when set.
pub open spec fn register_memory_form(op: Op, b0: u8, rest: Seq<u8>) -> Option<
    (Seq<char>, nat),
> {
    if rest.len() < 1 {
        None
    } else {
        let b1 = rest[0];
        let n = displacement_len(spec_rm(b1), spec_mode(b1));
        if rest.len() < 1 + n {
            None
        } else {
            let reg = register_of(spec_bit0(b0), spec_reg(b1)).spec_text();
            let rm = rm_text(spec_mode(b1), spec_bit0(b0), spec_rm(b1), signed_at(rest, 1, n));
            if spec_bit1(b0) == 1 {
                Some((two_operands(op, reg, rm), 1 + n))
            } else {
                Some((two_operands(op, rm, reg), 1 + n))
            }
        }
    }
}

/// The number of immediate bytes of the immediate-to-register/memory format:
/// for a move the word bit decides; for arithmetic, a set sign bit with a set
/// word bit reads one byte and sign-extends it.
pub open spec fn immediate_len(op: Op, b0: u8) -> nat {
    if op == Op::Mov {
        if spec_bit0(b0) == 1 {
            2
        } else {
            1
        }
    } else if spec_bit1(b0) == 0 && spec_bit0(b0) == 1 {
        2
    } else {
        1
    }
}

/// `word` or `byte`, by the word bit.
pub open spec fn size_text(word: u8) -> Seq<char> {
    if word == 1 {
        "word"@
    } else {
        "byte"@
    }
}

/// Immediate to register/memory: a mode/reg/r-m byte, the displacement, then
/// the immediate. A memory destination carries a `word` or `byte` marker
/// before the immediate.
pub open spec fn immediate_memory_form(op: Op, b0: u8, rest: Seq<u8>) -> Option<
    (Seq<char>, nat),
> {
    if rest.len() < 1 {
        None
    } else {
        let b1 = rest[0];
        let n = displacement_len(spec_rm(b1), spec_mode(b1));
        let k = immediate_len(op, b0);
        if rest.len() < 1 + n + k {
            None
        } else {
            let rm = rm_text(spec_mode(b1), spec_bit0(b0), spec_rm(b1), signed_at(rest, 1, n));
            let imm = signed_decimal(signed_at(rest, 1 + n as int, k));
            if spec_mode(b1) == 3 {
                Some((two_operands(op, rm, imm), 1 + n + k))
            } else {
                Some((two_operands(op, rm, size_text(spec_bit0(b0)) + " "@ + imm), 1 + n + k))
            }
        }
    }
}

/// Immediate to register: the register and the word bit sit in the leading
/// byte; one or two immediate bytes follow.
pub open spec fn immediate_register_form(op: Op, b0: u8, rest: Seq<u8>) -> Option<
    (Seq<char>, nat),
> {
    let k: nat = if spec_bit3(b0) == 1 {
        2
    } else {
        1
    };
    if rest.len() < k {
        None
    } else {
        let reg = register_of(spec_bit3(b0), spec_rm(b0)).spec_text();
        Some((two_operands(op, reg, signed_decimal(signed_at(rest, 0, k))), k))
    }
}

/// Memory to accumulator: a 16-bit address follows.
pub open spec fn memory_accumulator_form(op: Op, rest: Seq<u8>) -> Option<(Seq<char>, nat)> {
    if rest.len() < 2 {
        None
    } else {
        Some(
            (
                two_operands(
                    op,
                    EffectiveAddressCalculation::AX.spec_text(),
                    direct_text(signed_at(rest, 0, 2)),
                ),
                2,
            ),
        )
    }
}

/// Accumulator to memory: a 16-bit address follows.
pub open spec fn accumulator_memory_form(op: Op, rest: Seq<u8>) -> Option<(Seq<char>, nat)> {
    if rest.len() < 2 {
        None
    } else {
        Some(
            (
                two_operands(
                    op,
                    direct_text(signed_at(rest, 0, 2)),
                    EffectiveAddressCalculation::AX.spec_text(),
                ),
                2,
            ),
        )
    }
}

/// Immediate to accumulator: `al` and one byte, or `ax` and two, by the word
/// bit.
pub open spec fn immediate_accumulator_form(op: Op, b0: u8, rest: Seq<u8>) -> Option<
    (Seq<char>, nat),
> {
    let k: nat = if spec_bit0(b0) == 1 {
        2
    } else {
        1
    };
    if rest.len() < k {
        None
    } else {
        let acc = register_of(spec_bit0(b0), 0).spec_text();
        Some((two_operands(op, acc, signed_decimal(signed_at(rest, 0, k))), k))
    }
}

/// A relative jump or loop: one signed byte, rendered as `$+N`.
pub open spec fn relative_form(op: Op, rest: Seq<u8>) -> Option<(Seq<char>, nat)> {
    if rest.len() < 1 {
        None
    } else {
        Some((op.spec_text() + " $+"@ + signed_decimal(sext8(rest[0])), 1))
    }
}

/// Reads the mode/reg/r-m byte and the displacement after the leading byte
/// `instruction`, and renders `op dest, src`.
pub fn register_memory_to_from_register(
    operation: Op,
    cursor: &mut ByteCursor,
    instruction: u8,
) -> (r: Option<String>)
    requires
        old(cursor).wf(),
    ensures
        handled(
            register_memory_form(operation, instruction, old(cursor).rest()),
            r,
            *old(cursor),
            *final(cursor),
        ),
{
    let next = match cursor.next_byte() {
        Some(b) => b,
        None => return None,
    };
    let direction = direction_field(instruction);
    let word = word_byte_field(instruction);
    let mode = mode_field(next);
    let reg_field = register_field(next);
    let rm = rm_field(next);
    let n = which_displacement(rm, mode);
    let disp = match read_signed(cursor, n) {
        Some(v) => v,
        None => return None,
    };
    let reg = register_operand(word, reg_field);
    let operand = rm_operand(mode, word, rm, disp);
    if direction == 1 {
        Some(two_operand_line(operation, reg, operand.as_str()))
    } else {
        Some(two_operand_line(operation, operand.as_str(), reg))
    }
}

/// Reads the mode/reg/r-m byte, the displacement and the immediate after the
/// leading byte `instruction`, and renders `op dest, imm`, with a size marker
/// before the immediate when the destination is memory.
pub fn immediate_to_register_memory(
    operation: Op,
    cursor: &mut ByteCursor,
    instruction: u8,
) -> (r: Option<String>)
    requires
        old(cursor).wf(),
    ensures
        handled(
            immediate_memory_form(operation, instruction, old(cursor).rest()),
            r,
            *old(cursor),
            *final(cursor),
        ),
{
    let next = match cursor.next_byte() {
        Some(b) => b,
        None => return None,
    };
    let sign = sign_field(instruction);
    let word = word_byte_field(instruction);
    let mode = mode_field(next);
    let rm = rm_field(next);
    let n = which_displacement(rm, mode);
    let disp = match read_signed(cursor, n) {
        Some(v) => v,
        None => return None,
    };
    let k: u8 = if operation == Op::Mov {
        if word == 1 {
            2
        } else {
            1
        }
    } else if sign == 0 && word == 1 {
        2
    } else {
        1
    };
    let data = match read_signed(cursor, k) {
        Some(v) => v,
        None => return None,
    };
    let destination = rm_operand(mode, word, rm, disp);
    let mut immediate = String::new();
    if mode != 3 {
        if word == 1 {
            immediate.append("word");
        } else {
            immediate.append("byte");
        }
        immediate.append(" ");
    }
    push_signed(&mut immediate, data);
    proof {
        if mode != 3 {
            assert(immediate@ =~= size_text(word) + " "@ + signed_decimal(data as int));
        } else {
            assert(immediate@ =~= signed_decimal(data as int));
        }
    }
    Some(two_operand_line(operation, destination.as_str(), immediate.as_str()))
}

/// Reads the one or two immediate bytes after the leading byte
/// `instruction`, whose bits 3 and 2..0 give the word size and the register.
pub fn immediate_to_register(
    operation: Op,
    cursor: &mut ByteCursor,
    instruction: u8,
) -> (r: Option<String>)
    requires
        old(cursor).wf(),
    ensures
        handled(
            immediate_register_form(operation, instruction, old(cursor).rest()),
            r,
            *old(cursor),
            *final(cursor),
        ),
{
    let word = register_word_field(instruction);
    let reg_field = rm_field(instruction);
    let k: u8 = if word == 1 {
        2
    } else {
        1
    };
    let data = match read_signed(cursor, k) {
        Some(v) => v,
        None => return None,
    };
    let reg = register_operand(word, reg_field);
    let mut immediate = String::new();
    push_signed(&mut immediate, data);
    Some(two_operand_line(operation, reg, immediate.as_str()))
}

/// Reads a 16-bit address and renders `op ax, [addr]`.
pub fn memory_to_accumulator(operation: Op, cursor: &mut ByteCursor) -> (r: Option<String>)
    requires
        old(cursor).wf(),
    ensures
        handled(
            memory_accumulator_form(operation, old(cursor).rest()),
            r,
            *old(cursor),
            *final(cursor),
        ),
{
    let addr = match read_signed(cursor, 2) {
        Some(v) => v,
        None => return None,
    };
    let mut memory = String::new();
    push_direct(&mut memory, addr);
    Some(two_operand_line(operation, EffectiveAddressCalculation::AX.as_str(), memory.as_str()))
}

/// Reads a 16-bit address and renders `op [addr], ax`.
pub fn accumulator_to_memory(operation: Op, cursor: &mut ByteCursor) -> (r: Option<String>)
    requires
        old(cursor).wf(),
    ensures
        handled(
            accumulator_memory_form(operation, old(cursor).rest()),
            r,
            *old(cursor),
            *final(cursor),
        ),
{
    let addr = match read_signed(cursor, 2) {
        Some(v) => v,
        None => return None,
    };
    let mut memory = String::new();
    push_direct(&mut memory, addr);
    Some(two_operand_line(operation, memory.as_str(), EffectiveAddressCalculation::AX.as_str()))
}

/// Reads the immediate after the leading byte `instruction`, one byte for
/// `al` or two for `ax` by its word bit, and renders `op acc, imm`.
pub fn immediate_to_accumulator(
    operation: Op,
    cursor: &mut ByteCursor,
    instruction: u8,
) -> (r: Option<String>)
    requires
        old(cursor).wf(),
    ensures
        handled(
            immediate_accumulator_form(operation, instruction, old(cursor).rest()),
            r,
            *old(cursor),
            *final(cursor),
        ),
{
    let word = word_byte_field(instruction);
    let k: u8 = if word == 1 {
        2
    } else {
        1
    };
    let data = match read_signed(cursor, k) {
        Some(v) => v,
        None => return None,
    };
    let acc = register_operand(word, 0);
    let mut immediate = String::new();
    push_signed(&mut immediate, data);
    Some(two_operand_line(operation, acc, immediate.as_str()))
}

fn relative(operation: Op, cursor: &mut ByteCursor) -> (r: Option<String>)
    requires
        old(cursor).wf(),
    ensures
        handled(relative_form(operation, old(cursor).rest()), r, *old(cursor), *final(cursor)),
{
    let offset = match read_signed(cursor, 1) {
        Some(v) => v,
        None => return None,
    };
    let mut line = String::new();
    line.append(operation.as_str());
    line.append(" $+");
    push_signed(&mut line, offset);
    assert(line@ =~= operation.spec_text() + " $+"@ + signed_decimal(offset as int));
    Some(line)
}

/// Reads the signed 8-bit displacement of a conditional jump and renders
/// `op $+N`.
pub fn handle_jumps(operation: Op, cursor: &mut ByteCursor) -> (r: Option<String>)
    requires
        old(cursor).wf(),
    ensures
        handled(relative_form(operation, old(cursor).rest()), r, *old(cursor), *final(cursor)),
{
    relative(operation, cursor)
}

/// Reads the signed 8-bit displacement of a loop instruction and renders
/// `op $+N`.
pub fn handle_loops(operation: Op, cursor: &mut ByteCursor) -> (r: Option<String>)
    requires
        old(cursor).wf(),
    ensures
        handled(relative_form(operation, old(cursor).rest()), r, *old(cursor), *final(cursor)),
{
    relative(operation, cursor)
}

} // verus!
