//! The addressing-mode resolver: from the mode, word-size and register or r/m
//! fields to a named register or a base/index expression.
use vstd::prelude::*;

verus! {

/// A register, or the base/index expression of a memory operand.
#[derive(Clone, Copy, Debug, PartialEq, Eq, Structural)]
pub enum EffectiveAddressCalculation {
    AL,
    CL,
    DL,
    BL,
    AH,
    CH,
    DH,
    BH,
    AX,
    CX,
    DX,
    BX,
    SP,
    BP,
    SI,
    DI,
    BxSi,
    BxDi,
    BpSi,
    BpDi,
    Si,
    Di,
    Bp,
    Bx,
}

/// A combination of fields that the addressing table does not cover.
#[derive(Clone, Copy, Debug, PartialEq, Eq, Structural)]
pub struct MalformedFields {
    pub mode_field: u8,
    pub word_byte_field: u8,
    pub field: u8,
}

impl EffectiveAddressCalculation {
    /// The assembly text of the register or expression.
    pub open spec fn spec_text(self) -> Seq<char> {
        match self {
            EffectiveAddressCalculation::AL => "al"@,
            EffectiveAddressCalculation::CL => "cl"@,
            EffectiveAddressCalculation::DL => "dl"@,
            EffectiveAddressCalculation::BL => "bl"@,
            EffectiveAddressCalculation::AH => "ah"@,
            EffectiveAddressCalculation::CH => "ch"@,
            EffectiveAddressCalculation::DH => "dh"@,
            EffectiveAddressCalculation::BH => "bh"@,
            EffectiveAddressCalculation::AX => "ax"@,
            EffectiveAddressCalculation::CX => "cx"@,
            EffectiveAddressCalculation::DX => "dx"@,
            EffectiveAddressCalculation::BX => "bx"@,
            EffectiveAddressCalculation::SP => "sp"@,
            EffectiveAddressCalculation::BP => "bp"@,
            EffectiveAddressCalculation::SI => "si"@,
            EffectiveAddressCalculation::DI => "di"@,
            EffectiveAddressCalculation::BxSi => "bx + si"@,
            EffectiveAddressCalculation::BxDi => "bx + di"@,
            EffectiveAddressCalculation::BpSi => "bp + si"@,
            EffectiveAddressCalculation::BpDi => "bp + di"@,
            EffectiveAddressCalculation::Si => "si"@,
            EffectiveAddressCalculation::Di => "di"@,
            EffectiveAddressCalculation::Bp => "bp"@,
            EffectiveAddressCalculation::Bx => "bx"@,
        }
    }

    /// The assembly text of the register or expression.
    pub fn as_str(&self) -> (r: &'static str)
        ensures
            r@ == self.spec_text(),
    {
        match self {
            EffectiveAddressCalculation::AL => "al",
            EffectiveAddressCalculation::CL => "cl",
            EffectiveAddressCalculation::DL => "dl",
            EffectiveAddressCalculation::BL => "bl",
            EffectiveAddressCalculation::AH => "ah",
            EffectiveAddressCalculation::CH => "ch",
            EffectiveAddressCalculation::DH => "dh",
            EffectiveAddressCalculation::BH => "bh",
            EffectiveAddressCalculation::AX => "ax",
            EffectiveAddressCalculation::CX => "cx",
            EffectiveAddressCalculation::DX => "dx",
            EffectiveAddressCalculation::BX => "bx",
            EffectiveAddressCalculation::SP => "sp",
            EffectiveAddressCalculation::BP => "bp",
            EffectiveAddressCalculation::SI => "si",
            EffectiveAddressCalculation::DI => "di",
            EffectiveAddressCalculation::BxSi => "bx + si",
            EffectiveAddressCalculation::BxDi => "bx + di",
            EffectiveAddressCalculation::BpSi => "bp + si",
            EffectiveAddressCalculation::BpDi => "bp + di",
            EffectiveAddressCalculation::Si => "si",
            EffectiveAddressCalculation::Di => "di",
            EffectiveAddressCalculation::Bp => "bp",
            EffectiveAddressCalculation::Bx => "bx",
        }
    }
}

/// The register that `field` names at the given operand width: the 8-bit
/// halves for word size 0, the 16-bit registers for word size 1.
pub open spec fn register_of(word_byte_field: u8, field: u8) -> EffectiveAddressCalculation {
    if word_byte_field == 0 {
        if field == 0 {
            EffectiveAddressCalculation::AL
        } else if field == 1 {
            EffectiveAddressCalculation::CL
        } else if field == 2 {
            EffectiveAddressCalculation::DL
        } else if field == 3 {
            EffectiveAddressCalculation::BL
        } else if field == 4 {
            EffectiveAddressCalculation::AH
        } else if field == 5 {
            EffectiveAddressCalculation::CH
        } else if field == 6 {
            EffectiveAddressCalculation::DH
        } else {
            EffectiveAddressCalculation::BH
        }
    } else {
        if field == 0 {
            EffectiveAddressCalculation::AX
        } else if field == 1 {
            EffectiveAddressCalculation::CX
        } else if field == 2 {
            EffectiveAddressCalculation::DX
        } else if field == 3 {
            EffectiveAddressCalculation::BX
        } else if field == 4 {
            EffectiveAddressCalculation::SP
        } else if field == 5 {
            EffectiveAddressCalculation::BP
        } else if field == 6 {
            EffectiveAddressCalculation::SI
        } else {
            EffectiveAddressCalculation::DI
        }
    }
}

/// The base/index expression that an r/m field names under memory addressing.
pub open spec fn base_of(field: u8) -> EffectiveAddressCalculation {
    if field == 0 {
        EffectiveAddressCalculation::BxSi
    } else if field == 1 {
        EffectiveAddressCalculation::BxDi
    } else if field == 2 {
        EffectiveAddressCalculation::BpSi
    } else if field == 3 {
        EffectiveAddressCalculation::BpDi
    } else if field == 4 {
        EffectiveAddressCalculation::Si
    } else if field == 5 {
        EffectiveAddressCalculation::Di
    } else if field == 6 {
        EffectiveAddressCalculation::Bp
    } else {
        EffectiveAddressCalculation::Bx
    }
}

/// Whether the fields fall inside the addressing table.
pub open spec fn fields_in_table(
    mode_field: u8,
    word_byte_field: u8,
    field: u8,
    register_only: bool,
) -> bool {
    &&& field < 8
    &&& register_only || mode_field < 4
    &&& (register_only || mode_field == 3) ==> word_byte_field < 2
}

/// The addressing table. A register field, or any field under mode 11, names
/// a register; otherwise the field names a base/index expression, except r/m
/// 110 under mode 00, which names none: the operand is a direct address.
pub open spec fn address_of(
    mode_field: u8,
    word_byte_field: u8,
    field: u8,
    register_only: bool,
) -> Result<Option<EffectiveAddressCalculation>, MalformedFields> {
    if !fields_in_table(mode_field, word_byte_field, field, register_only) {
        Err(MalformedFields { mode_field, word_byte_field, field })
    } else if register_only || mode_field == 3 {
        Ok(Some(register_of(word_byte_field, field)))
    } else if mode_field == 0 && field == 6 {
        Ok(None)
    } else {
        Ok(Some(base_of(field)))
    }
}

fn register_named(word_byte_field: u8, field: u8) -> (r: EffectiveAddressCalculation)
    requires
        word_byte_field < 2,
        field < 8,
    ensures
        r == register_of(word_byte_field, field),
{
    if word_byte_field == 0 {
        match field {
            0 => EffectiveAddressCalculation::AL,
            1 => EffectiveAddressCalculation::CL,
            2 => EffectiveAddressCalculation::DL,
            3 => EffectiveAddressCalculation::BL,
            4 => EffectiveAddressCalculation::AH,
            5 => EffectiveAddressCalculation::CH,
            6 => EffectiveAddressCalculation::DH,
            _ => EffectiveAddressCalculation::BH,
        }
    } else {
        match field {
            0 => EffectiveAddressCalculation::AX,
            1 => EffectiveAddressCalculation::CX,
            2 => EffectiveAddressCalculation::DX,
            3 => EffectiveAddressCalculation::BX,
            4 => EffectiveAddressCalculation::SP,
            5 => EffectiveAddressCalculation::BP,
            6 => EffectiveAddressCalculation::SI,
            _ => EffectiveAddressCalculation::DI,
        }
    }
}

fn base_named(field: u8) -> (r: EffectiveAddressCalculation)
    requires
        field < 8,
    ensures
        r == base_of(field),
{
    match field {
        0 => EffectiveAddressCalculation::BxSi,
        1 => EffectiveAddressCalculation::BxDi,
        2 => EffectiveAddressCalculation::BpSi,
        3 => EffectiveAddressCalculation::BpDi,
        4 => EffectiveAddressCalculation::Si,
        5 => EffectiveAddressCalculation::Di,
        6 => EffectiveAddressCalculation::Bp,
        _ => EffectiveAddressCalculation::Bx,
    }
}

/// Resolves a register or r/m field. `Ok(None)` is a direct address: mode 00
/// with r/m 110 never names a base expression.
pub fn which_address(
    mode_field: u8,
    word_byte_field: u8,
    field: u8,
    register_only: bool,
) -> (r: Result<Option<EffectiveAddressCalculation>, MalformedFields>)
    ensures
        r == address_of(mode_field, word_byte_field, field, register_only),
        (mode_field == 0 && field == 6 && !register_only) ==> r == Ok::<
            Option<EffectiveAddressCalculation>,
            MalformedFields,
        >(None),
{
    let in_table = field < 8 && (register_only || mode_field < 4) && (!(register_only
        || mode_field == 3) || word_byte_field < 2);
    if !in_table {
        Err(MalformedFields { mode_field, word_byte_field, field })
    } else if register_only || mode_field == 3 {
        Ok(Some(register_named(word_byte_field, field)))
    } else if mode_field == 0 && field == 6 {
        Ok(None)
    } else {
        Ok(Some(base_named(field)))
    }
}

/// The number of displacement bytes that follow the mode/reg/r-m byte.
pub open spec fn displacement_len(rm_field: u8, mode_field: u8) -> nat {
    if mode_field == 0 {
        if rm_field == 6 {
            2
        } else {
            0
        }
    } else if mode_field == 1 {
        1
    } else if mode_field == 2 {
        2
    } else {
        0
    }
}

/// The number of displacement bytes for the given r/m and mode fields: none
/// under mode 00 but for a direct address (two), one under mode 01, two under
/// mode 10, none under mode 11.
pub fn which_displacement(rm_field: u8, mode_field: u8) -> (r: u8)
    requires
        mode_field < 4,
    ensures
        r == displacement_len(rm_field, mode_field),
{
    match mode_field {
        0 => {
            if rm_field == 6 {
                2
            } else {
                0
            }
        },
        1 => 1,
        2 => 2,
        _ => 0,
    }
}

} // verus!
