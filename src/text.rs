//! Rendering of numbers, registers and operands as disassembly text.

use crate::operand::Operand;
use vstd::prelude::*;

verus! {

/// The text of one hexadecimal digit `d < 16`, in lower case.
pub open spec fn digit_text(d: nat) -> Seq<char> {
    if d == 0 {
        "0"@
    } else if d == 1 {
        "1"@
    } else if d == 2 {
        "2"@
    } else if d == 3 {
        "3"@
    } else if d == 4 {
        "4"@
    } else if d == 5 {
        "5"@
    } else if d == 6 {
        "6"@
    } else if d == 7 {
        "7"@
    } else if d == 8 {
        "8"@
    } else if d == 9 {
        "9"@
    } else if d == 10 {
        "a"@
    } else if d == 11 {
        "b"@
    } else if d == 12 {
        "c"@
    } else if d == 13 {
        "d"@
    } else if d == 14 {
        "e"@
    } else if d == 15 {
        "f"@
    } else {
        Seq::empty()
    }
}

/// The digits of `n` in base 16, without leading zeros ("0" for zero).
pub open spec fn hex_digits(n: nat) -> Seq<char>
    decreases n,
{
    if n < 16 {
        digit_text(n)
    } else {
        hex_digits(n / 16) + digit_text(n % 16)
    }
}

/// The digits of `n` in base 10, without leading zeros ("0" for zero).
pub open spec fn decimal_digits(n: nat) -> Seq<char>
    decreases n,
{
    if n < 10 {
        digit_text(n)
    } else {
        decimal_digits(n / 10) + digit_text(n % 10)
    }
}

/// `n` in hexadecimal with a `0x` prefix.
pub open spec fn hex_text(n: nat) -> Seq<char> {
    "0x"@ + hex_digits(n)
}

/// `v` in hexadecimal with a `0x` prefix, after a `-` when negative.
pub open spec fn signed_hex_text(v: int) -> Seq<char> {
    if v < 0 {
        "-"@ + hex_text((-v) as nat)
    } else {
        hex_text(v as nat)
    }
}

/// The name of a register: `pc`, `sp`, `sr` and `cg` for r0 to r3, else
/// `r` and its number.
pub open spec fn register_text(r: u8) -> Seq<char> {
    if r == 0 {
        "pc"@
    } else if r == 1 {
        "sp"@
    } else if r == 2 {
        "sr"@
    } else if r == 3 {
        "cg"@
    } else {
        "r"@ + decimal_digits(r as nat)
    }
}

/// The canonical text of an operand.
pub open spec fn operand_text(op: Operand) -> Seq<char> {
    match op {
        Operand::RegisterDirect(r) => register_text(r),
        Operand::Indexed((r, i)) => signed_hex_text(i as int) + "("@ + register_text(r) + ")"@,
        Operand::RegisterIndirect(r) => "@"@ + register_text(r),
        Operand::RegisterIndirectAutoIncrement(r) => "@"@ + register_text(r) + "+"@,
        Operand::Symbolic(i) => "#"@ + signed_hex_text(i as int) + "(pc)"@,
        Operand::Immediate(u) => "#"@ + hex_text(u as nat),
        Operand::Absolute(u) => "&"@ + hex_text(u as nat),
        Operand::Constant(c) => "#"@ + signed_hex_text(c as int),
    }
}

fn digit_str(d: u32) -> (r: &'static str)
    requires
        d < 16,
    ensures
        r@ == digit_text(d as nat),
{
    match d {
        0 => "0",
        1 => "1",
        2 => "2",
        3 => "3",
        4 => "4",
        5 => "5",
        6 => "6",
        7 => "7",
        8 => "8",
        9 => "9",
        10 => "a",
        11 => "b",
        12 => "c",
        13 => "d",
        14 => "e",
        _ => "f",
    }
}

/// Appends the base-16 digits of `n`.
pub fn append_hex_digits(s: &mut String, n: u32)
    ensures
        final(s)@ == old(s)@ + hex_digits(n as nat),
    decreases n,
{
    if n >= 16 {
        append_hex_digits(s, n / 16);
    }
    s.append(digit_str(n % 16));
    assert(final(s)@ =~= old(s)@ + hex_digits(n as nat));
}

/// Appends the base-10 digits of `n`.
pub fn append_decimal_digits(s: &mut String, n: u32)
    ensures
        final(s)@ == old(s)@ + decimal_digits(n as nat),
    decreases n,
{
    if n >= 10 {
        append_decimal_digits(s, n / 10);
    }
    s.append(digit_str(n % 10));
    assert(final(s)@ =~= old(s)@ + decimal_digits(n as nat));
}

/// Appends `n` in hexadecimal with a `0x` prefix.
pub fn append_hex(s: &mut String, n: u32)
    ensures
        final(s)@ == old(s)@ + hex_text(n as nat),
{
    s.append("0x");
    append_hex_digits(s, n);
    assert(final(s)@ =~= old(s)@ + hex_text(n as nat));
}

/// Appends `v` in hexadecimal with a `0x` prefix, after a `-` when
/// negative.
pub fn append_signed_hex(s: &mut String, v: i16)
    ensures
        final(s)@ == old(s)@ + signed_hex_text(v as int),
{
    if v < 0 {
        s.append("-");
        append_hex(s, (-(v as i32)) as u32);
    } else {
        append_hex(s, v as u32);
    }
    assert(final(s)@ =~= old(s)@ + signed_hex_text(v as int));
}

/// Appends the name of register `r`.
pub fn append_register(s: &mut String, r: u8)
    ensures
        final(s)@ == old(s)@ + register_text(r),
{
    match r {
        0 => s.append("pc"),
        1 => s.append("sp"),
        2 => s.append("sr"),
        3 => s.append("cg"),
        _ => {
            s.append("r");
            append_decimal_digits(s, r as u32);
        },
    }
    assert(final(s)@ =~= old(s)@ + register_text(r));
}

/// Appends the canonical text of `op`.
pub fn append_operand(s: &mut String, op: Operand)
    ensures
        final(s)@ == old(s)@ + operand_text(op),
{
    match op {
        Operand::RegisterDirect(r) => append_register(s, r),
        Operand::Indexed((r, i)) => {
            append_signed_hex(s, i);
            s.append("(");
            append_register(s, r);
            s.append(")");
        },
        Operand::RegisterIndirect(r) => {
            s.append("@");
            append_register(s, r);
        },
        Operand::RegisterIndirectAutoIncrement(r) => {
            s.append("@");
            append_register(s, r);
            s.append("+");
        },
        Operand::Symbolic(i) => {
            s.append("#");
            append_signed_hex(s, i);
            s.append("(pc)");
        },
        Operand::Immediate(u) => {
            s.append("#");
            append_hex(s, u as u32);
        },
        Operand::Absolute(u) => {
            s.append("&");
            append_hex(s, u as u32);
        },
        Operand::Constant(c) => {
            s.append("#");
            append_signed_hex(s, c as i16);
        },
    }
    assert(final(s)@ =~= old(s)@ + operand_text(op));
}

} // verus!
