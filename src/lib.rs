//! A decoder for the MSP430 16-bit instruction set: it reads one
//! little-endian instruction from the head of a byte buffer, recognises
//! emulated aliases, and renders the canonical disassembly text.
//!
//! To walk a buffer, decode at its head and advance by the `size()` of the
//! instruction returned.

pub mod decode_error;
pub mod emulate;
pub mod instruction;
pub mod jxx;
pub mod operand;
pub mod single_operand;
pub mod text;
pub mod two_operand;

use crate::decode_error::DecodeError;
use crate::emulate::{lemma_emulation_preserves_original, spec_emulation, Emulate};
use crate::instruction::Instruction;
use crate::jxx::{jxx_fix_offset, spec_jump_offset, Jxx};
use crate::operand::{
    lemma_destination_consumption, lemma_destination_reads_only_its_word,
    lemma_source_consumption, lemma_source_reads_only_its_word, parse_destination, parse_source,
    read_word, spec_parse_destination, spec_parse_source, spec_word, OperandWidth,
};
use crate::single_operand::{Call, Push, Reti, Rra, Rrc, Swpb, Sxt};
use crate::two_operand::TwoOperand;
use vstd::prelude::*;

verus! {

/// The single-operand instruction whose word is `w`; `tail` holds the
/// bytes after the word.
pub open spec fn spec_decode_single_operand(w: u16, tail: Seq<u8>) -> Result<
    Instruction,
    DecodeError,
> {
    let opcode = (w >> 7) & 0b111;
    let width = OperandWidth::spec_from_bit((w >> 6) & 1);
    let mode = (w >> 4) & 0b11;
    let register = (w & 0b1111) as u8;
    if opcode == 6 {
        Ok(Instruction::Reti(Reti {  }))
    } else {
        match spec_parse_source(register, mode, tail) {
            Err(e) => Err(e),
            Ok(source) => {
                if opcode == 0 {
                    Ok(Instruction::Rrc(Rrc { source, operand_width: Some(width) }))
                } else if opcode == 1 {
                    Ok(Instruction::Swpb(Swpb { source, operand_width: None }))
                } else if opcode == 2 {
                    Ok(Instruction::Rra(Rra { source, operand_width: Some(width) }))
                } else if opcode == 3 {
                    Ok(Instruction::Sxt(Sxt { source, operand_width: None }))
                } else if opcode == 4 {
                    Ok(Instruction::Push(Push { source, operand_width: Some(width) }))
                } else if opcode == 5 {
                    Ok(Instruction::Call(Call { source, operand_width: None }))
                } else {
                    Err(DecodeError::InvalidOpcode(opcode))
                }
            },
        }
    }
}

/// The conditional jump whose word is `w`.
pub open spec fn spec_decode_jump(w: u16) -> Result<Instruction, DecodeError> {
    let condition = (w >> 10) & 0b111;
    let j = Jxx { offset: spec_jump_offset(w & 0x3ff) };
    if condition == 0 {
        Ok(Instruction::Jnz(j))
    } else if condition == 1 {
        Ok(Instruction::Jz(j))
    } else if condition == 2 {
        Ok(Instruction::Jlo(j))
    } else if condition == 3 {
        Ok(Instruction::Jc(j))
    } else if condition == 4 {
        Ok(Instruction::Jn(j))
    } else if condition == 5 {
        Ok(Instruction::Jge(j))
    } else if condition == 6 {
        Ok(Instruction::Jl(j))
    } else if condition == 7 {
        Ok(Instruction::Jmp(j))
    } else {
        Err(DecodeError::InvalidJumpCondition(condition))
    }
}

/// The two-operand instruction that `opcode` names, with payload `t`.
pub open spec fn spec_two_operand_instruction(opcode: u16, t: TwoOperand) -> Option<Instruction> {
    if opcode == 4 {
        Some(Instruction::Mov(t))
    } else if opcode == 5 {
        Some(Instruction::Add(t))
    } else if opcode == 6 {
        Some(Instruction::Addc(t))
    } else if opcode == 7 {
        Some(Instruction::Subc(t))
    } else if opcode == 8 {
        Some(Instruction::Sub(t))
    } else if opcode == 9 {
        Some(Instruction::Cmp(t))
    } else if opcode == 10 {
        Some(Instruction::Dadd(t))
    } else if opcode == 11 {
        Some(Instruction::Bit(t))
    } else if opcode == 12 {
        Some(Instruction::Bic(t))
    } else if opcode == 13 {
        Some(Instruction::Bis(t))
    } else if opcode == 14 {
        Some(Instruction::Xor(t))
    } else if opcode == 15 {
        Some(Instruction::And(t))
    } else {
        None
    }
}

/// The two-operand instruction whose word is `w`, rewritten into its
/// emulated alias where one applies; `tail` holds the bytes after the word.
/// The source's extension word comes before the destination's.
pub open spec fn spec_decode_two_operand(w: u16, tail: Seq<u8>) -> Result<
    Instruction,
    DecodeError,
> {
    let opcode = (w >> 12) & 0b1111;
    let source_register = ((w >> 8) & 0b1111) as u8;
    let ad = (w >> 7) & 1;
    let width = OperandWidth::spec_from_bit((w >> 6) & 1);
    let mode = (w >> 4) & 0b11;
    let destination_register = (w & 0b1111) as u8;
    match spec_parse_source(source_register, mode, tail) {
        Err(e) => Err(e),
        Ok(source) => match spec_parse_destination(
            destination_register,
            ad,
            tail.skip(source.spec_size() as int),
        ) {
            Err(e) => Err(e),
            Ok(destination) => {
                let t = TwoOperand { source, operand_width: width, destination };
                match spec_two_operand_instruction(opcode, t) {
                    None => Err(DecodeError::InvalidOpcode(opcode)),
                    Some(i) => match spec_emulation(i) {
                        Some(alias) => Ok(alias),
                        None => Ok(i),
                    },
                }
            },
        },
    }
}

/// The instruction at the head of `data`: the format is chosen by the top
/// three bits of the first little-endian word.
pub open spec fn spec_decode(data: Seq<u8>) -> Result<Instruction, DecodeError> {
    if data.len() < 2 {
        Err(DecodeError::MissingInstruction)
    } else {
        let w = spec_word(data[0], data[1]);
        let tail = data.skip(2);
        if w >> 13 == 0 {
            spec_decode_single_operand(w, tail)
        } else if w >> 13 == 1 {
            spec_decode_jump(w)
        } else {
            spec_decode_two_operand(w, tail)
        }
    }
}

/// A decoded instruction is 2, 4 or 6 bytes long, and no longer than the
/// input it was decoded from.
#[verifier::spinoff_prover]
pub proof fn lemma_decode_size(data: Seq<u8>)
    requires
        spec_decode(data) is Ok,
    ensures
        ({
            let n = spec_decode(data)->Ok_0.spec_size();
            &&& n <= data.len()
            &&& n == 2 || n == 4 || n == 6
        }),
{
    let w = spec_word(data[0], data[1]);
    let tail = data.skip(2);
    if w >> 13 == 0 {
        if (w >> 7) & 0b111 != 6 {
            lemma_source_consumption((w & 0b1111) as u8, (w >> 4) & 0b11, tail);
        }
    } else if w >> 13 != 1 {
        let source_register = ((w >> 8) & 0b1111) as u8;
        let mode = (w >> 4) & 0b11;
        lemma_source_consumption(source_register, mode, tail);
        let source = spec_parse_source(source_register, mode, tail)->Ok_0;
        let rest = tail.skip(source.spec_size() as int);
        lemma_destination_consumption((w & 0b1111) as u8, (w >> 7) & 1, rest);
        let destination = spec_parse_destination((w & 0b1111) as u8, (w >> 7) & 1, rest)->Ok_0;
        let t = TwoOperand {
            source,
            operand_width: OperandWidth::spec_from_bit((w >> 6) & 1),
            destination,
        };
        let i = spec_two_operand_instruction((w >> 12) & 0b1111, t)->Some_0;
        if spec_emulation(i) is Some {
            lemma_emulation_preserves_original(i);
        }
    }
}

/// The bytes an instruction occupies determine it: an input that agrees
/// with `a` on the first `size()` bytes of the instruction decoded from `a`
/// decodes to that same instruction, whatever follows.
#[verifier::spinoff_prover]
pub proof fn lemma_decode_reads_only_its_bytes(a: Seq<u8>, b: Seq<u8>)
    requires
        spec_decode(a) is Ok,
        b.len() >= spec_decode(a)->Ok_0.spec_size(),
        a.take(spec_decode(a)->Ok_0.spec_size() as int) == b.take(
            spec_decode(a)->Ok_0.spec_size() as int,
        ),
    ensures
        spec_decode(b) == spec_decode(a),
{
    lemma_decode_size(a);
    let n = spec_decode(a)->Ok_0.spec_size() as int;
    assert(a[0] == a.take(n)[0] && a[1] == a.take(n)[1]);
    assert(b[0] == b.take(n)[0] && b[1] == b.take(n)[1]);
    let w = spec_word(a[0], a[1]);
    let ta = a.skip(2);
    let tb = b.skip(2);
    assert(ta.take(n - 2) =~= a.take(n).skip(2));
    assert(tb.take(n - 2) =~= b.take(n).skip(2));
    if w >> 13 == 0 {
        if (w >> 7) & 0b111 != 6 {
            let register = (w & 0b1111) as u8;
            let mode = (w >> 4) & 0b11;
            let s = spec_parse_source(register, mode, ta)->Ok_0.spec_size() as int;
            assert(ta.take(s) =~= ta.take(n - 2).take(s));
            assert(tb.take(s) =~= tb.take(n - 2).take(s));
            lemma_source_reads_only_its_word(register, mode, ta, tb);
        }
    } else if w >> 13 != 1 {
        let source_register = ((w >> 8) & 0b1111) as u8;
        let destination_register = (w & 0b1111) as u8;
        let ad = (w >> 7) & 1;
        let mode = (w >> 4) & 0b11;
        let source = spec_parse_source(source_register, mode, ta)->Ok_0;
        let s = source.spec_size() as int;
        let ra = ta.skip(s);
        let rb = tb.skip(s);
        let destination = spec_parse_destination(destination_register, ad, ra)->Ok_0;
        let d = destination.spec_size() as int;
        let t = TwoOperand {
            source,
            operand_width: OperandWidth::spec_from_bit((w >> 6) & 1),
            destination,
        };
        let i = spec_two_operand_instruction((w >> 12) & 0b1111, t)->Some_0;
        if spec_emulation(i) is Some {
            lemma_emulation_preserves_original(i);
        }
        assert(n == 2 + s + d);
        assert(ta.take(s) =~= ta.take(n - 2).take(s));
        assert(tb.take(s) =~= tb.take(n - 2).take(s));
        lemma_source_reads_only_its_word(source_register, mode, ta, tb);
        assert(ra.take(d) =~= ta.take(n - 2).skip(s));
        assert(rb.take(d) =~= tb.take(n - 2).skip(s));
        lemma_destination_reads_only_its_word(destination_register, ad, ra, rb);
    }
}

/// The width bit (bit 6 of the first word) gives the width: 0 a word, 1 a
/// byte. `rrc`, `rra`, `push` and the two-operand forms carry it; `swpb`,
/// `sxt`, `call`, `reti` and the jumps carry none.
#[verifier::spinoff_prover]
pub proof fn lemma_decode_width(data: Seq<u8>)
    requires
        spec_decode(data) is Ok,
    ensures
        ({
            let i = spec_decode(data)->Ok_0;
            let bit = (spec_word(data[0], data[1]) >> 6) & 1;
            &&& (i is Rrc || i is Rra || i is Push || i.is_two_operand()) ==> i.spec_operand_width()
                == Some(OperandWidth::spec_from_bit(bit))
            &&& (i is Swpb || i is Sxt || i is Call || i is Reti || i.is_jump())
                ==> i.spec_operand_width() is None
            &&& OperandWidth::spec_from_bit(bit) == (if bit == 0 {
                OperandWidth::Word
            } else {
                OperandWidth::Byte
            })
        }),
{
    let w = spec_word(data[0], data[1]);
    let tail = data.skip(2);
    let width = OperandWidth::spec_from_bit((w >> 6) & 1);
    if w >> 13 == 0 {
        let r = spec_decode_single_operand(w, tail);
        assert(r == spec_decode(data));
    } else if w >> 13 == 1 {
        assert(spec_decode_jump(w) == spec_decode(data));
    } else {
        let mode = (w >> 4) & 0b11;
        let source = spec_parse_source(((w >> 8) & 0b1111) as u8, mode, tail)->Ok_0;
        let rest = tail.skip(source.spec_size() as int);
        let destination = spec_parse_destination((w & 0b1111) as u8, (w >> 7) & 1, rest)->Ok_0;
        let t = TwoOperand { source, operand_width: width, destination };
        let i = spec_two_operand_instruction((w >> 12) & 0b1111, t)->Some_0;
        assert(i.is_two_operand() && i.spec_operand_width() == Some(width));
        if spec_emulation(i) is Some {
            lemma_emulation_preserves_original(i);
        }
    }
}

/// Every word whose top three bits are 001 decodes to a jump. Its offset is
/// the low ten bits read as two's complement, so it is negative exactly
/// when bit 9 is set.
pub proof fn lemma_decode_jump_offset(data: Seq<u8>)
    requires
        data.len() >= 2,
        spec_word(data[0], data[1]) >> 13 == 1,
    ensures
        ({
            let w = spec_word(data[0], data[1]);
            let r = spec_decode(data);
            let field = w & 0x3ff;
            &&& r is Ok
            &&& r->Ok_0.is_jump()
            &&& r->Ok_0.jump_offset() == Some(spec_jump_offset(w))
            &&& (r->Ok_0.jump_offset()->Some_0 < 0 <==> w & 0x200 != 0)
            &&& r->Ok_0.jump_offset()->Some_0 == (if w & 0x200 != 0 {
                field - 1024
            } else {
                field as int
            })
        }),
{
    let w = spec_word(data[0], data[1]);
    assert((w >> 10) & 0b111 < 8) by (bit_vector);
    assert((w & 0x3ff) % 1024 == w % 1024 && w & 0x3ff == w % 1024 && (w % 1024 >= 512 <==> w
        & 0x200 != 0)) by (bit_vector);
}

fn decode_single_operand(w: u16, tail: &[u8]) -> (r: Result<Instruction, DecodeError>)
    ensures
        r == spec_decode_single_operand(w, tail@),
        r is Ok ==> r->Ok_0.wf(),
{
    let opcode = (w >> 7) & 0b111;
    let width = OperandWidth::from_bit((w >> 6) & 1);
    let mode = (w >> 4) & 0b11;
    let register = (w & 0b1111) as u8;
    if opcode == 6 {
        return Ok(Instruction::Reti(Reti::new()));
    }
    let (source, _) = parse_source(register, mode, tail)?;
    match opcode {
        0 => Ok(Instruction::Rrc(Rrc::new(source, Some(width)))),
        1 => Ok(Instruction::Swpb(Swpb::new(source, None))),
        2 => Ok(Instruction::Rra(Rra::new(source, Some(width)))),
        3 => Ok(Instruction::Sxt(Sxt::new(source, None))),
        4 => Ok(Instruction::Push(Push::new(source, Some(width)))),
        5 => Ok(Instruction::Call(Call::new(source, None))),
        _ => Err(DecodeError::InvalidOpcode(opcode)),
    }
}

fn decode_jump(w: u16) -> (r: Result<Instruction, DecodeError>)
    ensures
        r == spec_decode_jump(w),
        r is Ok ==> r->Ok_0.wf(),
{
    let condition = (w >> 10) & 0b111;
    let j = Jxx::new(jxx_fix_offset(w & 0x3ff));
    match condition {
        0 => Ok(Instruction::Jnz(j)),
        1 => Ok(Instruction::Jz(j)),
        2 => Ok(Instruction::Jlo(j)),
        3 => Ok(Instruction::Jc(j)),
        4 => Ok(Instruction::Jn(j)),
        5 => Ok(Instruction::Jge(j)),
        6 => Ok(Instruction::Jl(j)),
        7 => Ok(Instruction::Jmp(j)),
        _ => Err(DecodeError::InvalidJumpCondition(condition)),
    }
}

fn two_operand_instruction(opcode: u16, t: TwoOperand) -> (r: Option<Instruction>)
    ensures
        r == spec_two_operand_instruction(opcode, t),
{
    match opcode {
        4 => Some(Instruction::Mov(t)),
        5 => Some(Instruction::Add(t)),
        6 => Some(Instruction::Addc(t)),
        7 => Some(Instruction::Subc(t)),
        8 => Some(Instruction::Sub(t)),
        9 => Some(Instruction::Cmp(t)),
        10 => Some(Instruction::Dadd(t)),
        11 => Some(Instruction::Bit(t)),
        12 => Some(Instruction::Bic(t)),
        13 => Some(Instruction::Bis(t)),
        14 => Some(Instruction::Xor(t)),
        15 => Some(Instruction::And(t)),
        _ => None,
    }
}

#[verifier::spinoff_prover]
fn decode_two_operand(w: u16, tail: &[u8]) -> (r: Result<Instruction, DecodeError>)
    ensures
        r == spec_decode_two_operand(w, tail@),
        r is Ok ==> r->Ok_0.wf(),
{
    let opcode = (w >> 12) & 0b1111;
    let source_register = ((w >> 8) & 0b1111) as u8;
    let ad = (w >> 7) & 1;
    let width = OperandWidth::from_bit((w >> 6) & 1);
    let mode = (w >> 4) & 0b11;
    let destination_register = (w & 0b1111) as u8;
    let (source, rest) = parse_source(source_register, mode, tail)?;
    let destination = parse_destination(destination_register, ad, rest)?;
    match two_operand_instruction(opcode, TwoOperand::new(source, width, destination)) {
        None => Err(DecodeError::InvalidOpcode(opcode)),
        Some(i) => match i.emulate() {
            Some(alias) => Ok(alias),
            None => Ok(i),
        },
    }
}

/// Decodes the one instruction at the head of `data`. The instruction is
/// 2, 4 or 6 bytes long; its `size()` says how far to advance to reach the
/// next one.
pub fn decode(data: &[u8]) -> (r: Result<Instruction, DecodeError>)
    ensures
        r == spec_decode(data@),
        r is Ok ==> r->Ok_0.wf(),
{
    if data.len() < 2 {
        return Err(DecodeError::MissingInstruction);
    }
    let w = read_word(data);
    let (_, tail) = data.split_at(2);
    assert(tail@ == data@.skip(2));
    if w >> 13 == 0 {
        decode_single_operand(w, tail)
    } else if w >> 13 == 1 {
        decode_jump(w)
    } else {
        decode_two_operand(w, tail)
    }
}

} // verus!
