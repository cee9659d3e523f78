//! A disassembler for a subset of the 8086 instruction set: data movement,
//! add/sub/cmp, conditional jumps and loops. Raw machine-code bytes go in;
//! assembly text comes out, one line per instruction.

pub mod address;
pub mod cursor;
pub mod decoder;
pub mod fields;
pub mod formats;
pub mod laws;
pub mod opcode;
pub mod operand;
pub mod text;

pub use address::{which_address, which_displacement, EffectiveAddressCalculation, MalformedFields};
pub use cursor::ByteCursor;
pub use decoder::{decode_next, process_bin, DecodeError};
pub use formats::{
    accumulator_to_memory, handle_jumps, handle_loops, immediate_to_accumulator,
    immediate_to_register, immediate_to_register_memory, memory_to_accumulator,
    register_memory_to_from_register,
};
pub use opcode::{classify, which_arithmetic, which_instruction, InstructionFormat, Op};
