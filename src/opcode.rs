//! The opcode classifier: from the leading byte (and, for the immediate
//! arithmetic group, the next byte) to an operation and an instruction format.
use vstd::prelude::*;
use crate::fields::{register_field, spec_reg};

verus! {

/// An operation, with its mnemonic.
#[derive(Clone, Copy, Debug, PartialEq, Eq, Structural)]
pub enum Op {
    Mov,
    Add,
    Sub,
    Cmp,
    Je,
    Jl,
    Jle,
    Jb,
    Jbe,
    Jp,
    Jo,
    Js,
    Jne,
    Jnl,
    Jg,
    Jnb,
    Ja,
    Jnp,
    Jno,
    Jns,
    Loop,
    Loopz,
    Loopnz,
    Jcxz,
    Invalid,
}

/// The byte layout of an instruction.
#[derive(Clone, Copy, Debug, PartialEq, Eq, Structural)]
pub enum InstructionFormat {
    RegisterMemoryToFromRegister,
    ImmediateToRegisterMemory,
    ImmediateToRegister,
    MemoryToAccumulator,
    AccumulatorToMemory,
    RegisterMemoryToSegmentRegister,
    SegmentRegisterToRegisterMemory,
    ImmediateToAccumulator,
    RelativeJump,
    RelativeLoop,
    Invalid,
}

impl Op {
    /// The lower-case mnemonic; empty for `Invalid`.
    pub open spec fn spec_text(self) -> Seq<char> {
        match self {
            Op::Mov => "mov"@,
            Op::Add => "add"@,
            Op::Sub => "sub"@,
            Op::Cmp => "cmp"@,
            Op::Je => "je"@,
            Op::Jl => "jl"@,
            Op::Jle => "jle"@,
            Op::Jb => "jb"@,
            Op::Jbe => "jbe"@,
            Op::Jp => "jp"@,
            Op::Jo => "jo"@,
            Op::Js => "js"@,
            Op::Jne => "jne"@,
            Op::Jnl => "jnl"@,
            Op::Jg => "jg"@,
            Op::Jnb => "jnb"@,
            Op::Ja => "ja"@,
            Op::Jnp => "jnp"@,
            Op::Jno => "jno"@,
            Op::Jns => "jns"@,
            Op::Loop => "loop"@,
            Op::Loopz => "loopz"@,
            Op::Loopnz => "loopnz"@,
            Op::Jcxz => "jcxz"@,
            Op::Invalid => ""@,
        }
    }

    /// The lower-case mnemonic; empty for `Invalid`.
    pub fn as_str(&self) -> (r: &'static str)
        ensures
            r@ == self.spec_text(),
    {
        match self {
            Op::Mov => "mov",
            Op::Add => "add",
            Op::Sub => "sub",
            Op::Cmp => "cmp",
            Op::Je => "je",
            Op::Jl => "jl",
            Op::Jle => "jle",
            Op::Jb => "jb",
            Op::Jbe => "jbe",
            Op::Jp => "jp",
            Op::Jo => "jo",
            Op::Js => "js",
            Op::Jne => "jne",
            Op::Jnl => "jnl",
            Op::Jg => "jg",
            Op::Jnb => "jnb",
            Op::Ja => "ja",
            Op::Jnp => "jnp",
            Op::Jno => "jno",
            Op::Jns => "jns",
            Op::Loop => "loop",
            Op::Loopz => "loopz",
            Op::Loopnz => "loopnz",
            Op::Jcxz => "jcxz",
            Op::Invalid => "",
        }
    }
}

/// Whether a leading byte belongs to the immediate arithmetic group, whose
/// operation the reg field of the next byte selects.
pub open spec fn in_arithmetic_group(b: u8) -> bool {
    0x80 <= b <= 0x83
}

/// The conditional jump of a leading byte in 0x70..=0x7F.
pub open spec fn jump_of(b: u8) -> Op {
    if b == 0x70 {
        Op::Jo
    } else if b == 0x71 {
        Op::Jno
    } else if b == 0x72 {
        Op::Jb
    } else if b == 0x73 {
        Op::Jnb
    } else if b == 0x74 {
        Op::Je
    } else if b == 0x75 {
        Op::Jne
    } else if b == 0x76 {
        Op::Jbe
    } else if b == 0x77 {
        Op::Ja
    } else if b == 0x78 {
        Op::Js
    } else if b == 0x79 {
        Op::Jns
    } else if b == 0x7A {
        Op::Jp
    } else if b == 0x7B {
        Op::Jnp
    } else if b == 0x7C {
        Op::Jl
    } else if b == 0x7D {
        Op::Jnl
    } else if b == 0x7E {
        Op::Jle
    } else {
        Op::Jg
    }
}

/// The loop instruction of a leading byte in 0xE0..=0xE3.
pub open spec fn loop_of(b: u8) -> Op {
    if b == 0xE0 {
        Op::Loopnz
    } else if b == 0xE1 {
        Op::Loopz
    } else if b == 0xE2 {
        Op::Loop
    } else {
        Op::Jcxz
    }
}

/// The table of leading bytes that decide an instruction on their own. The
/// bytes of the immediate arithmetic group, and every byte not listed, are
/// `Invalid` here.
pub open spec fn instruction_of(b: u8) -> (Op, InstructionFormat) {
    if 0x88 <= b <= 0x8B {
        (Op::Mov, InstructionFormat::RegisterMemoryToFromRegister)
    } else if 0xC6 <= b <= 0xC7 {
        (Op::Mov, InstructionFormat::ImmediateToRegisterMemory)
    } else if 0xB0 <= b <= 0xBF {
        (Op::Mov, InstructionFormat::ImmediateToRegister)
    } else if 0xA0 <= b <= 0xA1 {
        (Op::Mov, InstructionFormat::MemoryToAccumulator)
    } else if 0xA2 <= b <= 0xA3 {
        (Op::Mov, InstructionFormat::AccumulatorToMemory)
    } else if b == 0x8E {
        (Op::Mov, InstructionFormat::RegisterMemoryToSegmentRegister)
    } else if b == 0x8C {
        (Op::Mov, InstructionFormat::SegmentRegisterToRegisterMemory)
    } else if b <= 0x03 {
        (Op::Add, InstructionFormat::RegisterMemoryToFromRegister)
    } else if 0x04 <= b <= 0x05 {
        (Op::Add, InstructionFormat::ImmediateToAccumulator)
    } else if 0x28 <= b <= 0x2B {
        (Op::Sub, InstructionFormat::RegisterMemoryToFromRegister)
    } else if 0x2C <= b <= 0x2D {
        (Op::Sub, InstructionFormat::ImmediateToAccumulator)
    } else if 0x38 <= b <= 0x3B {
        (Op::Cmp, InstructionFormat::RegisterMemoryToFromRegister)
    } else if 0x3C <= b <= 0x3D {
        (Op::Cmp, InstructionFormat::ImmediateToAccumulator)
    } else if 0x70 <= b <= 0x7F {
        (jump_of(b), InstructionFormat::RelativeJump)
    } else if 0xE0 <= b <= 0xE3 {
        (loop_of(b), InstructionFormat::RelativeLoop)
    } else {
        (Op::Invalid, InstructionFormat::Invalid)
    }
}

/// The operation of the immediate arithmetic group that the reg field of the
/// byte after the leading byte selects: 000 add, 101 sub, 111 cmp.
pub open spec fn arithmetic_of(next: u8) -> Op {
    if spec_reg(next) == 0 {
        Op::Add
    } else if spec_reg(next) == 5 {
        Op::Sub
    } else if spec_reg(next) == 7 {
        Op::Cmp
    } else {
        Op::Invalid
    }
}

/// The full classification of a leading byte; `next` is the byte after it,
/// read only for the immediate arithmetic group.
pub open spec fn classification(b: u8, next: u8) -> (Op, InstructionFormat) {
    if in_arithmetic_group(b) {
        if arithmetic_of(next) == Op::Invalid {
            (Op::Invalid, InstructionFormat::Invalid)
        } else {
            (arithmetic_of(next), InstructionFormat::ImmediateToRegisterMemory)
        }
    } else {
        instruction_of(b)
    }
}

/// Classifies a leading byte that decides the instruction on its own.
pub fn which_instruction(byte: u8) -> (r: (Op, InstructionFormat))
    ensures
        r == instruction_of(byte),
{
    match byte {
        0x88..=0x8B => (Op::Mov, InstructionFormat::RegisterMemoryToFromRegister),
        0xC6..=0xC7 => (Op::Mov, InstructionFormat::ImmediateToRegisterMemory),
        0xB0..=0xBF => (Op::Mov, InstructionFormat::ImmediateToRegister),
        0xA0..=0xA1 => (Op::Mov, InstructionFormat::MemoryToAccumulator),
        0xA2..=0xA3 => (Op::Mov, InstructionFormat::AccumulatorToMemory),
        0x8E => (Op::Mov, InstructionFormat::RegisterMemoryToSegmentRegister),
        0x8C => (Op::Mov, InstructionFormat::SegmentRegisterToRegisterMemory),
        0x00..=0x03 => (Op::Add, InstructionFormat::RegisterMemoryToFromRegister),
        0x04..=0x05 => (Op::Add, InstructionFormat::ImmediateToAccumulator),
        0x28..=0x2B => (Op::Sub, InstructionFormat::RegisterMemoryToFromRegister),
        0x2C..=0x2D => (Op::Sub, InstructionFormat::ImmediateToAccumulator),
        0x38..=0x3B => (Op::Cmp, InstructionFormat::RegisterMemoryToFromRegister),
        0x3C..=0x3D => (Op::Cmp, InstructionFormat::ImmediateToAccumulator),
        0x70 => (Op::Jo, InstructionFormat::RelativeJump),
        0x71 => (Op::Jno, InstructionFormat::RelativeJump),
        0x72 => (Op::Jb, InstructionFormat::RelativeJump),
        0x73 => (Op::Jnb, InstructionFormat::RelativeJump),
        0x74 => (Op::Je, InstructionFormat::RelativeJump),
        0x75 => (Op::Jne, InstructionFormat::RelativeJump),
        0x76 => (Op::Jbe, InstructionFormat::RelativeJump),
        0x77 => (Op::Ja, InstructionFormat::RelativeJump),
        0x78 => (Op::Js, InstructionFormat::RelativeJump),
        0x79 => (Op::Jns, InstructionFormat::RelativeJump),
        0x7A => (Op::Jp, InstructionFormat::RelativeJump),
        0x7B => (Op::Jnp, InstructionFormat::RelativeJump),
        0x7C => (Op::Jl, InstructionFormat::RelativeJump),
        0x7D => (Op::Jnl, InstructionFormat::RelativeJump),
        0x7E => (Op::Jle, InstructionFormat::RelativeJump),
        0x7F => (Op::Jg, InstructionFormat::RelativeJump),
        0xE0 => (Op::Loopnz, InstructionFormat::RelativeLoop),
        0xE1 => (Op::Loopz, InstructionFormat::RelativeLoop),
        0xE2 => (Op::Loop, InstructionFormat::RelativeLoop),
        0xE3 => (Op::Jcxz, InstructionFormat::RelativeLoop),
        _ => (Op::Invalid, InstructionFormat::Invalid),
    }
}

/// The operation of the immediate arithmetic group that the reg field of
/// `next` selects, or `Invalid`.
pub fn which_arithmetic(next: u8) -> (r: Op)
    ensures
        r == arithmetic_of(next),
{
    match register_field(next) {
        0 => Op::Add,
        5 => Op::Sub,
        7 => Op::Cmp,
        _ => Op::Invalid,
    }
}

/// Classifies a leading byte; `next` is the byte after it, read only for the
/// immediate arithmetic group (0x80..=0x83).
pub fn classify(byte: u8, next: u8) -> (r: (Op, InstructionFormat))
    ensures
        r == classification(byte, next),
{
    if 0x80 <= byte && byte <= 0x83 {
        let op = which_arithmetic(next);
        if op == Op::Invalid {
            (Op::Invalid, InstructionFormat::Invalid)
        } else {
            (op, InstructionFormat::ImmediateToRegisterMemory)
        }
    } else {
        which_instruction(byte)
    }
}

} // verus!
