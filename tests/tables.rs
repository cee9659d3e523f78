use decoder8086::fields::{
    direction_field, mode_field, register_field, register_word_field, rm_field, sign_field,
    word_byte_field,
};
use decoder8086::{
    classify, which_address, which_arithmetic, which_displacement, which_instruction,
    EffectiveAddressCalculation, InstructionFormat, MalformedFields, Op,
};

#[test]
fn fields_of_a_mode_byte() {
    assert_eq!(mode_field(0xD9), 0b11);
    assert_eq!(register_field(0xD9), 0b011);
    assert_eq!(rm_field(0xD9), 0b001);
    assert_eq!(mode_field(0x41), 0b01);
    assert_eq!(register_field(0x41), 0b000);
    assert_eq!(rm_field(0x41), 0b001);
}

#[test]
fn fields_of_a_leading_byte() {
    assert_eq!(direction_field(0x8B), 1);
    assert_eq!(direction_field(0x89), 0);
    assert_eq!(word_byte_field(0x89), 1);
    assert_eq!(word_byte_field(0x88), 0);
    assert_eq!(sign_field(0x83), 1);
    assert_eq!(sign_field(0x81), 0);
    assert_eq!(register_word_field(0xB9), 1);
    assert_eq!(register_word_field(0xB1), 0);
}

#[test]
fn register_fields_name_registers() {
    assert_eq!(which_address(0, 0, 0b000, true), Ok(Some(EffectiveAddressCalculation::AL)));
    assert_eq!(which_address(0, 0, 0b111, true), Ok(Some(EffectiveAddressCalculation::BH)));
    assert_eq!(which_address(0, 1, 0b100, true), Ok(Some(EffectiveAddressCalculation::SP)));
    assert_eq!(which_address(0b11, 1, 0b001, false), Ok(Some(EffectiveAddressCalculation::CX)));
    assert_eq!(which_address(0b11, 0, 0b110, false), Ok(Some(EffectiveAddressCalculation::DH)));
}

#[test]
fn memory_fields_name_base_expressions() {
    assert_eq!(which_address(0b00, 1, 0b000, false), Ok(Some(EffectiveAddressCalculation::BxSi)));
    assert_eq!(which_address(0b01, 0, 0b011, false), Ok(Some(EffectiveAddressCalculation::BpDi)));
    assert_eq!(which_address(0b10, 1, 0b110, false), Ok(Some(EffectiveAddressCalculation::Bp)));
    assert_eq!(which_address(0b01, 1, 0b110, false), Ok(Some(EffectiveAddressCalculation::Bp)));
    assert_eq!(which_address(0b00, 1, 0b111, false), Ok(Some(EffectiveAddressCalculation::Bx)));
}

#[test]
fn mode_zero_rm_six_is_a_direct_address() {
    assert_eq!(which_address(0b00, 0, 0b110, false), Ok(None));
    assert_eq!(which_address(0b00, 1, 0b110, false), Ok(None));
}

#[test]
fn fields_outside_the_table_are_malformed() {
    assert_eq!(
        which_address(0, 0, 8, true),
        Err(MalformedFields { mode_field: 0, word_byte_field: 0, field: 8 })
    );
    assert_eq!(
        which_address(4, 0, 0, false),
        Err(MalformedFields { mode_field: 4, word_byte_field: 0, field: 0 })
    );
    assert_eq!(
        which_address(0b11, 2, 0, false),
        Err(MalformedFields { mode_field: 0b11, word_byte_field: 2, field: 0 })
    );
}

#[test]
fn operand_texts() {
    assert_eq!(EffectiveAddressCalculation::BxDi.as_str(), "bx + di");
    assert_eq!(EffectiveAddressCalculation::Si.as_str(), "si");
    assert_eq!(EffectiveAddressCalculation::AH.as_str(), "ah");
}

#[test]
fn displacement_lengths() {
    assert_eq!(which_displacement(0b000, 0b00), 0);
    assert_eq!(which_displacement(0b110, 0b00), 2);
    assert_eq!(which_displacement(0b110, 0b01), 1);
    assert_eq!(which_displacement(0b010, 0b10), 2);
    assert_eq!(which_displacement(0b110, 0b11), 0);
}

#[test]
fn single_byte_classification() {
    assert_eq!(which_instruction(0x89), (Op::Mov, InstructionFormat::RegisterMemoryToFromRegister));
    assert_eq!(which_instruction(0xC7), (Op::Mov, InstructionFormat::ImmediateToRegisterMemory));
    assert_eq!(which_instruction(0xBB), (Op::Mov, InstructionFormat::ImmediateToRegister));
    assert_eq!(which_instruction(0xA1), (Op::Mov, InstructionFormat::MemoryToAccumulator));
    assert_eq!(which_instruction(0xA2), (Op::Mov, InstructionFormat::AccumulatorToMemory));
    assert_eq!(which_instruction(0x8E), (Op::Mov, InstructionFormat::RegisterMemoryToSegmentRegister));
    assert_eq!(which_instruction(0x8C), (Op::Mov, InstructionFormat::SegmentRegisterToRegisterMemory));
    assert_eq!(which_instruction(0x03), (Op::Add, InstructionFormat::RegisterMemoryToFromRegister));
    assert_eq!(which_instruction(0x05), (Op::Add, InstructionFormat::ImmediateToAccumulator));
    assert_eq!(which_instruction(0x2A), (Op::Sub, InstructionFormat::RegisterMemoryToFromRegister));
    assert_eq!(which_instruction(0x2C), (Op::Sub, InstructionFormat::ImmediateToAccumulator));
    assert_eq!(which_instruction(0x39), (Op::Cmp, InstructionFormat::RegisterMemoryToFromRegister));
    assert_eq!(which_instruction(0x3D), (Op::Cmp, InstructionFormat::ImmediateToAccumulator));
    assert_eq!(which_instruction(0x7E), (Op::Jle, InstructionFormat::RelativeJump));
    assert_eq!(which_instruction(0x73), (Op::Jnb, InstructionFormat::RelativeJump));
    assert_eq!(which_instruction(0xE0), (Op::Loopnz, InstructionFormat::RelativeLoop));
    assert_eq!(which_instruction(0xE3), (Op::Jcxz, InstructionFormat::RelativeLoop));
    assert_eq!(which_instruction(0x0F), (Op::Invalid, InstructionFormat::Invalid));
    assert_eq!(which_instruction(0x81), (Op::Invalid, InstructionFormat::Invalid));
}

#[test]
fn arithmetic_group_classification() {
    assert_eq!(which_arithmetic(0b11_000_110), Op::Add);
    assert_eq!(which_arithmetic(0b00_101_111), Op::Sub);
    assert_eq!(which_arithmetic(0b00_111_110), Op::Cmp);
    assert_eq!(which_arithmetic(0b00_001_000), Op::Invalid);
    assert_eq!(classify(0x83, 0xC6), (Op::Add, InstructionFormat::ImmediateToRegisterMemory));
    assert_eq!(classify(0x80, 0x2F), (Op::Sub, InstructionFormat::ImmediateToRegisterMemory));
    assert_eq!(classify(0x81, 0x3E), (Op::Cmp, InstructionFormat::ImmediateToRegisterMemory));
    assert_eq!(classify(0x80, 0x08), (Op::Invalid, InstructionFormat::Invalid));
    assert_eq!(classify(0x89, 0x08), (Op::Mov, InstructionFormat::RegisterMemoryToFromRegister));
}

#[test]
fn mnemonics() {
    assert_eq!(Op::Mov.as_str(), "mov");
    assert_eq!(Op::Jnp.as_str(), "jnp");
    assert_eq!(Op::Loopnz.as_str(), "loopnz");
    assert_eq!(Op::Invalid.as_str(), "");
}
