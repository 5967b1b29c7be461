//! Operands: the eight addressing modes, the operand width, and the parsers
//! that turn an addressing-mode field, a register number and the trailing
//! bytes into an operand.

use crate::decode_error::DecodeError;
use crate::text::{append_operand, operand_text};
use vstd::prelude::*;

verus! {

/// A source or destination operand. Destinations are a subset of sources,
/// so one type serves both.
#[derive(Debug, Clone, Copy, Eq)]
pub enum Operand {
    /// The operand is the register itself.
    RegisterDirect(u8),
    /// The operand is in memory at the register plus a signed index, which
    /// is held in an extension word.
    Indexed((u8, i16)),
    /// The operand is in memory at the address held in the register.
    RegisterIndirect(u8),
    /// As `RegisterIndirect`, and the register is then advanced.
    RegisterIndirectAutoIncrement(u8),
    /// The operand is in memory at a PC-relative displacement held in an
    /// extension word.
    Symbolic(i16),
    /// The operand is the literal held in an extension word.
    Immediate(u16),
    /// The operand is in memory at the address held in an extension word.
    Absolute(u16),
    /// A small constant produced by a constant-generator register.
    Constant(i8),
}

impl PartialEq for Operand {
    fn eq(&self, other: &Operand) -> (r: bool) {
        match (*self, *other) {
            (Operand::RegisterDirect(a), Operand::RegisterDirect(b)) => a == b,
            (Operand::Indexed((a, i)), Operand::Indexed((b, j))) => a == b && i == j,
            (Operand::RegisterIndirect(a), Operand::RegisterIndirect(b)) => a == b,
            (
                Operand::RegisterIndirectAutoIncrement(a),
                Operand::RegisterIndirectAutoIncrement(b),
            ) => a == b,
            (Operand::Symbolic(a), Operand::Symbolic(b)) => a == b,
            (Operand::Immediate(a), Operand::Immediate(b)) => a == b,
            (Operand::Absolute(a), Operand::Absolute(b)) => a == b,
            (Operand::Constant(a), Operand::Constant(b)) => a == b,
            _ => false,
        }
    }
}

impl vstd::std_specs::cmp::PartialEqSpecImpl for Operand {
    open spec fn obeys_eq_spec() -> bool {
        true
    }

    open spec fn eq_spec(&self, other: &Operand) -> bool {
        *self == *other
    }
}

/// The addressing mode of an operand, without its payload.
#[derive(Debug, Clone, Copy, PartialEq, Eq, Structural)]
pub enum AddressingMode {
    RegisterDirect,
    Indexed,
    RegisterIndirect,
    IndirectAutoIncrement,
    Symbolic,
    Immediate,
    Absolute,
    Constant,
}

impl AddressingMode {
    /// Whether an operand in this mode is followed by an extension word.
    pub open spec fn needs_extension_word(self) -> bool {
        match self {
            AddressingMode::Indexed
            | AddressingMode::Symbolic
            | AddressingMode::Immediate
            | AddressingMode::Absolute => true,
            _ => false,
        }
    }
}

impl Operand {
    pub open spec fn mode(self) -> AddressingMode {
        match self {
            Operand::RegisterDirect(_) => AddressingMode::RegisterDirect,
            Operand::Indexed(_) => AddressingMode::Indexed,
            Operand::RegisterIndirect(_) => AddressingMode::RegisterIndirect,
            Operand::RegisterIndirectAutoIncrement(_) => AddressingMode::IndirectAutoIncrement,
            Operand::Symbolic(_) => AddressingMode::Symbolic,
            Operand::Immediate(_) => AddressingMode::Immediate,
            Operand::Absolute(_) => AddressingMode::Absolute,
            Operand::Constant(_) => AddressingMode::Constant,
        }
    }

    /// Number of extension-word bytes the operand occupies: 2 or 0.
    pub open spec fn spec_size(self) -> nat {
        if self.mode().needs_extension_word() {
            2
        } else {
            0
        }
    }

    /// The ranges of registers and constants that an encoding can produce.
    pub open spec fn wf(self) -> bool {
        match self {
            Operand::RegisterDirect(r) => r < 16,
            Operand::Indexed((r, _)) => r < 16 && r != 0 && r != 2,
            Operand::RegisterIndirect(r) => r < 16 && r != 2 && r != 3,
            Operand::RegisterIndirectAutoIncrement(r) => r < 16 && r != 0 && r != 2 && r != 3,
            Operand::Constant(c) => c == -1 || c == 0 || c == 1 || c == 2 || c == 4 || c == 8,
            _ => true,
        }
    }

    pub fn addressing_mode(&self) -> (r: AddressingMode)
        ensures
            r == self.mode(),
    {
        match self {
            Operand::RegisterDirect(_) => AddressingMode::RegisterDirect,
            Operand::Indexed(_) => AddressingMode::Indexed,
            Operand::RegisterIndirect(_) => AddressingMode::RegisterIndirect,
            Operand::RegisterIndirectAutoIncrement(_) => AddressingMode::IndirectAutoIncrement,
            Operand::Symbolic(_) => AddressingMode::Symbolic,
            Operand::Immediate(_) => AddressingMode::Immediate,
            Operand::Absolute(_) => AddressingMode::Absolute,
            Operand::Constant(_) => AddressingMode::Constant,
        }
    }

    /// The canonical disassembly text of the operand.
    pub fn to_string(&self) -> (r: String)
        ensures
            r@ == operand_text(*self),
    {
        let mut s = String::new();
        append_operand(&mut s, *self);
        assert(s@ =~= operand_text(*self));
        s
    }

    /// Number of bytes the operand adds after the instruction word.
    pub fn size(&self) -> (r: usize)
        ensures
            r == self.spec_size(),
            r == 0 || r == 2,
    {
        match self {
            Operand::Indexed(_) | Operand::Symbolic(_) | Operand::Immediate(_) | Operand::Absolute(
                _,
            ) => 2,
            _ => 0,
        }
    }
}

/// Whether an operand is used as a byte or as a word.
#[derive(Debug, Clone, Copy, PartialEq, Eq, Structural)]
pub enum OperandWidth {
    Byte,
    Word,
}

impl OperandWidth {
    /// The width selected by the width bit of an instruction word: 0 is a
    /// word, any other value a byte.
    pub open spec fn spec_from_bit(bit: u16) -> OperandWidth {
        if bit == 0 {
            OperandWidth::Word
        } else {
            OperandWidth::Byte
        }
    }

    pub fn from_bit(bit: u16) -> (r: OperandWidth)
        ensures
            r == Self::spec_from_bit(bit),
    {
        if bit == 0 {
            OperandWidth::Word
        } else {
            OperandWidth::Byte
        }
    }
}

/// The 16-bit value of two bytes read little-endian.
pub open spec fn spec_word(lo: u8, hi: u8) -> u16 {
    (lo + 256 * hi) as u16
}

/// A 16-bit word read as a two's-complement signed value.
pub open spec fn spec_signed(w: u16) -> i16 {
    if w < 0x8000 {
        w as i16
    } else {
        (w - 0x10000) as i16
    }
}

/// The first two bytes of `data` as a little-endian word.
pub fn read_word(data: &[u8]) -> (r: u16)
    requires
        data@.len() >= 2,
    ensures
        r == spec_word(data@[0], data@[1]),
{
    data[0] as u16 + (data[1] as u16) * 256
}

/// A word reinterpreted as a two's-complement signed value.
pub fn to_signed(w: u16) -> (r: i16)
    ensures
        r == spec_signed(w),
{
    if w < 0x8000 {
        w as i16
    } else {
        (w as i32 - 0x10000) as i16
    }
}

/// The source operand that the addressing mode `mode` (the AS field) and
/// `register` select, reading an extension word from the head of `data`
/// where the mode needs one.
pub open spec fn spec_parse_source(register: u8, mode: u16, data: Seq<u8>) -> Result<
    Operand,
    DecodeError,
> {
    let invalid = Err(DecodeError::InvalidSource((mode, register)));
    let missing = Err(DecodeError::MissingSource);
    let has_word = data.len() >= 2;
    let word = spec_word(data[0], data[1]);
    if register >= 16 || mode >= 4 {
        invalid
    } else if mode == 0 {
        if register == 3 {
            Ok(Operand::Constant(0))
        } else {
            Ok(Operand::RegisterDirect(register))
        }
    } else if mode == 1 {
        if register == 3 {
            Ok(Operand::Constant(1))
        } else if !has_word {
            missing
        } else if register == 0 {
            Ok(Operand::Symbolic(spec_signed(word)))
        } else if register == 2 {
            Ok(Operand::Absolute(word))
        } else {
            Ok(Operand::Indexed((register, spec_signed(word))))
        }
    } else if mode == 2 {
        if register == 2 {
            Ok(Operand::Constant(4))
        } else if register == 3 {
            Ok(Operand::Constant(2))
        } else {
            Ok(Operand::RegisterIndirect(register))
        }
    } else {
        if register == 0 {
            if !has_word {
                missing
            } else {
                Ok(Operand::Immediate(word))
            }
        } else if register == 2 {
            Ok(Operand::Constant(8))
        } else if register == 3 {
            Ok(Operand::Constant(-1i8))
        } else {
            Ok(Operand::RegisterIndirectAutoIncrement(register))
        }
    }
}

/// The destination operand that the addressing mode `mode` (the AD bit)
/// and `register` select, reading an extension word from the head of
/// `data` where the mode needs one.
pub open spec fn spec_parse_destination(register: u8, mode: u16, data: Seq<u8>) -> Result<
    Operand,
    DecodeError,
> {
    let word = spec_word(data[0], data[1]);
    if register >= 16 || mode >= 2 {
        Err(DecodeError::InvalidDestination((mode, register)))
    } else if mode == 0 {
        Ok(Operand::RegisterDirect(register))
    } else if data.len() < 2 {
        Err(DecodeError::MissingDestination)
    } else if register == 0 {
        Ok(Operand::Symbolic(spec_signed(word)))
    } else if register == 2 {
        Ok(Operand::Absolute(word))
    } else {
        Ok(Operand::Indexed((register, spec_signed(word))))
    }
}

/// A parsed source operand takes 0 or 2 bytes from the head of `data`,
/// never more than there are, and those bytes and the rest make up `data`.
pub proof fn lemma_source_consumption(register: u8, mode: u16, data: Seq<u8>)
    requires
        spec_parse_source(register, mode, data) is Ok,
    ensures
        ({
            let n = spec_parse_source(register, mode, data)->Ok_0.spec_size();
            &&& n == 0 || n == 2
            &&& n <= data.len()
            &&& data == data.take(n as int) + data.skip(n as int)
        }),
{
    let n = spec_parse_source(register, mode, data)->Ok_0.spec_size();
    assert(data =~= data.take(n as int) + data.skip(n as int));
}

/// A parsed destination operand takes 0 or 2 bytes from the head of
/// `data`, never more than there are.
pub proof fn lemma_destination_consumption(register: u8, mode: u16, data: Seq<u8>)
    requires
        spec_parse_destination(register, mode, data) is Ok,
    ensures
        ({
            let n = spec_parse_destination(register, mode, data)->Ok_0.spec_size();
            &&& n == 0 || n == 2
            &&& n <= data.len()
        }),
{
}

/// A parsed source operand depends only on the bytes it takes: any input
/// that agrees on them parses to the same operand.
pub proof fn lemma_source_reads_only_its_word(register: u8, mode: u16, a: Seq<u8>, b: Seq<u8>)
    requires
        spec_parse_source(register, mode, a) is Ok,
        b.len() >= spec_parse_source(register, mode, a)->Ok_0.spec_size(),
        a.take(spec_parse_source(register, mode, a)->Ok_0.spec_size() as int) == b.take(
            spec_parse_source(register, mode, a)->Ok_0.spec_size() as int,
        ),
    ensures
        spec_parse_source(register, mode, b) == spec_parse_source(register, mode, a),
{
    let n = spec_parse_source(register, mode, a)->Ok_0.spec_size();
    if n == 2 {
        assert(a[0] == a.take(2)[0] && a[1] == a.take(2)[1]);
        assert(b[0] == b.take(2)[0] && b[1] == b.take(2)[1]);
    }
}

/// A parsed destination operand depends only on the bytes it takes.
pub proof fn lemma_destination_reads_only_its_word(
    register: u8,
    mode: u16,
    a: Seq<u8>,
    b: Seq<u8>,
)
    requires
        spec_parse_destination(register, mode, a) is Ok,
        b.len() >= spec_parse_destination(register, mode, a)->Ok_0.spec_size(),
        a.take(spec_parse_destination(register, mode, a)->Ok_0.spec_size() as int) == b.take(
            spec_parse_destination(register, mode, a)->Ok_0.spec_size() as int,
        ),
    ensures
        spec_parse_destination(register, mode, b) == spec_parse_destination(register, mode, a),
{
    let n = spec_parse_destination(register, mode, a)->Ok_0.spec_size();
    if n == 2 {
        assert(a[0] == a.take(2)[0] && a[1] == a.take(2)[1]);
        assert(b[0] == b.take(2)[0] && b[1] == b.take(2)[1]);
    }
}

/// Parses a source operand from its addressing mode `source` (the AS
/// field), its register, and the bytes that follow the instruction word.
/// On success returns the operand and the bytes after its extension word.
pub fn parse_source<'a>(register: u8, source: u16, data: &'a [u8]) -> (r: Result<
    (Operand, &'a [u8]),
    DecodeError,
>)
    ensures
        match r {
            Ok((op, rest)) => {
                &&& spec_parse_source(register, source, data@) == Ok::<Operand, DecodeError>(op)
                &&& op.spec_size() == 0 || op.spec_size() == 2
                &&& rest@ == data@.skip(op.spec_size() as int)
                &&& data@ == data@.take(op.spec_size() as int) + rest@
                &&& op.wf()
            },
            Err(e) => spec_parse_source(register, source, data@) == Err::<Operand, DecodeError>(e),
        },
{
    if register >= 16 || source >= 4 {
        return Err(DecodeError::InvalidSource((source, register)));
    }
    proof {
        if spec_parse_source(register, source, data@) is Ok {
            lemma_source_consumption(register, source, data@);
        }
    }
    let needs_word = (source == 1 && register != 3) || (source == 3 && register == 0);
    if !needs_word {
        let op = if source == 0 {
            if register == 3 {
                Operand::Constant(0)
            } else {
                Operand::RegisterDirect(register)
            }
        } else if source == 1 {
            Operand::Constant(1)
        } else if source == 2 {
            if register == 2 {
                Operand::Constant(4)
            } else if register == 3 {
                Operand::Constant(2)
            } else {
                Operand::RegisterIndirect(register)
            }
        } else if register == 2 {
            Operand::Constant(8)
        } else if register == 3 {
            Operand::Constant(-1)
        } else {
            Operand::RegisterIndirectAutoIncrement(register)
        };
        assert(data@.skip(0) =~= data@);
        return Ok((op, data));
    }
    if data.len() < 2 {
        return Err(DecodeError::MissingSource);
    }
    let word = read_word(data);
    let (_, rest) = data.split_at(2);
    let op = if source == 3 {
        Operand::Immediate(word)
    } else if register == 0 {
        Operand::Symbolic(to_signed(word))
    } else if register == 2 {
        Operand::Absolute(word)
    } else {
        Operand::Indexed((register, to_signed(word)))
    };
    Ok((op, rest))
}

/// Parses a destination operand from its addressing mode `source` (the AD
/// bit), its register, and the bytes that follow the source operand.
pub fn parse_destination(register: u8, source: u16, data: &[u8]) -> (r: Result<
    Operand,
    DecodeError,
>)
    ensures
        r == spec_parse_destination(register, source, data@),
        r is Ok ==> r->Ok_0.spec_size() == 0 || r->Ok_0.spec_size() == 2,
        r is Ok ==> r->Ok_0.spec_size() <= data@.len(),
        r is Ok ==> r->Ok_0.wf(),
{
    if register >= 16 || source >= 2 {
        Err(DecodeError::InvalidDestination((source, register)))
    } else if source == 0 {
        Ok(Operand::RegisterDirect(register))
    } else if data.len() < 2 {
        Err(DecodeError::MissingDestination)
    } else {
        let word = read_word(data);
        if register == 0 {
            Ok(Operand::Symbolic(to_signed(word)))
        } else if register == 2 {
            Ok(Operand::Absolute(word))
        } else {
            Ok(Operand::Indexed((register, to_signed(word))))
        }
    }
}

} // verus!
