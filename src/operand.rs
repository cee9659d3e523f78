//! Reading displacements and immediates, and rendering operands.
use vstd::prelude::*;
use crate::address::{
    base_of, register_of, which_address, EffectiveAddressCalculation,
};
use crate::cursor::ByteCursor;
use crate::opcode::Op;
use crate::text::{decimal, push_decimal, push_signed, signed_decimal};

verus! {

/// A byte read as a signed 8-bit value.
pub open spec fn sext8(b: u8) -> int {
    if b < 128 {
        b as int
    } else {
        b - 256
    }
}

/// Two bytes, low first, read as a signed 16-bit value.
pub open spec fn sext16(lo: u8, hi: u8) -> int {
    let v = lo + 256 * hi;
    if v < 32768 {
        v
    } else {
        v - 65536
    }
}

/// The signed little-endian value of the `n` bytes (none, one or two) of `s`
/// from index `at`.
pub open spec fn signed_at(s: Seq<u8>, at: int, n: nat) -> int {
    if n == 0 {
        0
    } else if n == 1 {
        sext8(s[at])
    } else {
        sext16(s[at], s[at + 1])
    }
}

/// `inner` between square brackets.
pub open spec fn bracketed(inner: Seq<char>) -> Seq<char> {
    "["@ + inner + "]"@
}

/// A memory operand with a base expression: a negative displacement is
/// subtracted, a positive one added, and a zero one not shown.
pub open spec fn memory_text(base: Seq<char>, disp: int) -> Seq<char> {
    if disp < 0 {
        bracketed(base + " - "@ + decimal((-disp) as nat))
    } else if disp > 0 {
        bracketed(base + " + "@ + decimal(disp as nat))
    } else {
        bracketed(base)
    }
}

/// A direct address: the signed 16-bit value in brackets.
pub open spec fn direct_text(addr: int) -> Seq<char> {
    bracketed(signed_decimal(addr))
}

/// The r/m operand: a register under mode 11, a direct address for mode 00
/// with r/m 110, and otherwise a base expression with its displacement.
pub open spec fn rm_text(mode: u8, word: u8, rm: u8, disp: int) -> Seq<char> {
    if mode == 3 {
        register_of(word, rm).spec_text()
    } else if mode == 0 && rm == 6 {
        direct_text(disp)
    } else {
        memory_text(base_of(rm).spec_text(), disp)
    }
}

/// `op a, b`.
pub open spec fn two_operands(op: Op, a: Seq<char>, b: Seq<char>) -> Seq<char> {
    op.spec_text() + " "@ + a + ", "@ + b
}

/// Reads a signed little-endian value of `n` bytes (none, one or two). When
/// fewer bytes are left, returns `None` with the cursor at the end.
pub fn read_signed(cursor: &mut ByteCursor, n: u8) -> (r: Option<i32>)
    requires
        old(cursor).wf(),
        n <= 2,
    ensures
        final(cursor).wf(),
        final(cursor).input() == old(cursor).input(),
        n <= old(cursor).rest().len() ==> {
            &&& r matches Some(v) && v as int == signed_at(old(cursor).rest(), 0, n as nat)
            &&& final(cursor).offset() == old(cursor).offset() + n
        },
        n > old(cursor).rest().len() ==> {
            &&& r is None
            &&& final(cursor).offset() == old(cursor).input().len()
        },
        r matches Some(v) ==> -32768 <= v < 32768,
{
    if n == 0 {
        return Some(0);
    }
    let lo = match cursor.next_byte() {
        Some(b) => b,
        None => return None,
    };
    let lo_value: i32 = if lo < 128 {
        lo as i32
    } else {
        lo as i32 - 256
    };
    if n == 1 {
        return Some(lo_value);
    }
    let hi = match cursor.next_byte() {
        Some(b) => b,
        None => return None,
    };
    let v: i32 = lo as i32 + 256 * hi as i32;
    if v < 32768 {
        Some(v)
    } else {
        Some(v - 65536)
    }
}

/// Appends a memory operand with base expression `base`.
pub fn push_memory(out: &mut String, base: EffectiveAddressCalculation, disp: i32)
    requires
        -32768 <= disp < 32768,
    ensures
        final(out)@ == old(out)@ + memory_text(base.spec_text(), disp as int),
{
    out.append("[");
    out.append(base.as_str());
    if disp < 0 {
        out.append(" - ");
        push_decimal(out, (-disp) as u32);
    } else if disp > 0 {
        out.append(" + ");
        push_decimal(out, disp as u32);
    }
    out.append("]");
    assert(out@ =~= old(out)@ + memory_text(base.spec_text(), disp as int));
}

/// Appends a direct address.
pub fn push_direct(out: &mut String, addr: i32)
    ensures
        final(out)@ == old(out)@ + direct_text(addr as int),
{
    out.append("[");
    push_signed(out, addr);
    out.append("]");
    assert(out@ =~= old(out)@ + direct_text(addr as int));
}

/// Renders the r/m operand of the given fields and displacement.
pub fn rm_operand(mode: u8, word: u8, rm: u8, disp: i32) -> (r: String)
    requires
        mode < 4,
        word < 2,
        rm < 8,
        -32768 <= disp < 32768,
    ensures
        r@ == rm_text(mode, word, rm, disp as int),
{
    let mut out = String::new();
    match which_address(mode, word, rm, false) {
        Ok(Some(a)) => {
            if mode == 3 {
                out.append(a.as_str());
            } else {
                push_memory(&mut out, a, disp);
            }
        },
        _ => {
            push_direct(&mut out, disp);
        },
    }
    assert(out@ =~= rm_text(mode, word, rm, disp as int));
    out
}

/// The text of the register that `field` names at word size `word`.
pub fn register_operand(word: u8, field: u8) -> (r: &'static str)
    requires
        word < 2,
        field < 8,
    ensures
        r@ == register_of(word, field).spec_text(),
{
    match which_address(0, word, field, true) {
        Ok(Some(a)) => a.as_str(),
        _ => "",
    }
}

/// `op a, b`.
pub fn two_operand_line(op: Op, a: &str, b: &str) -> (r: String)
    ensures
        r@ == two_operands(op, a@, b@),
{
    let mut line = String::new();
    line.append(op.as_str());
    line.append(" ");
    line.append(a);
    line.append(", ");
    line.append(b);
    assert(line@ =~= two_operands(op, a@, b@));
    line
}

} // verus!
