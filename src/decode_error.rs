//! The ways in which decoding an instruction can fail.

use crate::text::{append_decimal_digits, decimal_digits};
use vstd::prelude::*;

verus! {

/// Every error that decoding can report.
#[derive(Debug, Clone, Copy, Eq)]
pub enum DecodeError {
    /// The source addressing mode needs an extension word, and fewer than
    /// two bytes follow.
    MissingSource,
    /// The destination addressing mode needs an extension word, and fewer
    /// than two bytes follow.
    MissingDestination,
    /// The pair (source addressing mode, register) names no operand.
    InvalidSource((u16, u8)),
    /// The pair (destination addressing mode, register) names no operand.
    InvalidDestination((u16, u8)),
    /// Fewer than two bytes were given, so there is no instruction word.
    MissingInstruction,
    /// The opcode of a single- or two-operand instruction names no
    /// instruction.
    InvalidOpcode(u16),
    /// The condition field of a jump names no condition. A three-bit field
    /// cannot produce this.
    InvalidJumpCondition(u16),
}

impl DecodeError {
    /// A one-line description of the error.
    pub open spec fn text(self) -> Seq<char> {
        match self {
            DecodeError::MissingSource => "source operand is missing"@,
            DecodeError::MissingDestination => "destination operand is missing"@,
            DecodeError::InvalidSource((mode, register)) => "source addressing mode ("@
                + decimal_digits(mode as nat) + ") for register ("@ + decimal_digits(
                register as nat,
            ) + ") is invalid"@,
            DecodeError::InvalidDestination((mode, register)) => "destination addressing mode ("@
                + decimal_digits(mode as nat) + ") for register ("@ + decimal_digits(
                register as nat,
            ) + ") is invalid"@,
            DecodeError::MissingInstruction => "not enough data to decode instruction"@,
            DecodeError::InvalidOpcode(opcode) => "invalid opcode "@ + decimal_digits(
                opcode as nat,
            ),
            DecodeError::InvalidJumpCondition(condition) => "invalid jump condition "@
                + decimal_digits(condition as nat),
        }
    }

    /// A one-line description of the error.
    pub fn to_string(&self) -> (r: String)
        ensures
            r@ == self.text(),
    {
        match *self {
            DecodeError::MissingSource => String::from_str("source operand is missing"),
            DecodeError::MissingDestination => String::from_str("destination operand is missing"),
            DecodeError::InvalidSource((mode, register)) => {
                let mut s = String::from_str("source addressing mode (");
                append_mode_and_register(&mut s, mode, register);
                s
            },
            DecodeError::InvalidDestination((mode, register)) => {
                let mut s = String::from_str("destination addressing mode (");
                append_mode_and_register(&mut s, mode, register);
                s
            },
            DecodeError::MissingInstruction => String::from_str(
                "not enough data to decode instruction",
            ),
            DecodeError::InvalidOpcode(opcode) => {
                let mut s = String::from_str("invalid opcode ");
                append_decimal_digits(&mut s, opcode as u32);
                s
            },
            DecodeError::InvalidJumpCondition(condition) => {
                let mut s = String::from_str("invalid jump condition ");
                append_decimal_digits(&mut s, condition as u32);
                s
            },
        }
    }
}

fn append_mode_and_register(s: &mut String, mode: u16, register: u8)
    ensures
        final(s)@ == old(s)@ + decimal_digits(mode as nat) + ") for register ("@
            + decimal_digits(register as nat) + ") is invalid"@,
{
    append_decimal_digits(s, mode as u32);
    s.append(") for register (");
    append_decimal_digits(s, register as u32);
    s.append(") is invalid");
}

impl PartialEq for DecodeError {
    fn eq(&self, other: &DecodeError) -> (r: bool) {
        match (*self, *other) {
            (DecodeError::MissingSource, DecodeError::MissingSource) => true,
            (DecodeError::MissingDestination, DecodeError::MissingDestination) => true,
            (DecodeError::InvalidSource((a, r)), DecodeError::InvalidSource((b, s))) => a == b && r
                == s,
            (
                DecodeError::InvalidDestination((a, r)),
                DecodeError::InvalidDestination((b, s)),
            ) => a == b && r == s,
            (DecodeError::MissingInstruction, DecodeError::MissingInstruction) => true,
            (DecodeError::InvalidOpcode(a), DecodeError::InvalidOpcode(b)) => a == b,
            (DecodeError::InvalidJumpCondition(a), DecodeError::InvalidJumpCondition(b)) => a == b,
            _ => false,
        }
    }
}

impl vstd::std_specs::cmp::PartialEqSpecImpl for DecodeError {
    open spec fn obeys_eq_spec() -> bool {
        true
    }

    open spec fn eq_spec(&self, other: &DecodeError) -> bool {
        *self == *other
    }
}

} // verus!
