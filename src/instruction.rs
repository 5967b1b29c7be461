//! The decoded instruction: one variant per mnemonic.

use crate::emulate::Emulated;
use crate::jxx::Jxx;
use crate::operand::OperandWidth;
use crate::text::{append_operand, append_signed_hex, operand_text, signed_hex_text};
use crate::single_operand::{Call, Push, Reti, Rra, Rrc, SingleOperand, Swpb, Sxt};
use crate::two_operand::TwoOperand;
use vstd::prelude::*;

verus! {

/// `.b` for a byte-wide operation, nothing otherwise.
pub open spec fn width_suffix(w: Option<OperandWidth>) -> Seq<char> {
    if w == Some(OperandWidth::Byte) {
        ".b"@
    } else {
        Seq::empty()
    }
}

fn append_width_suffix(s: &mut String, w: Option<OperandWidth>)
    ensures
        final(s)@ == old(s)@ + width_suffix(w),
{
    if let Some(OperandWidth::Byte) = w {
        s.append(".b");
    } else {
        assert(old(s)@ =~= old(s)@ + width_suffix(w));
    }
}

/// A decoded MSP430 instruction.
#[derive(Debug, Clone, Copy, PartialEq, Eq)]
pub enum Instruction {
    // single-operand instructions
    Rrc(Rrc),
    Swpb(Swpb),
    Rra(Rra),
    Sxt(Sxt),
    Push(Push),
    Call(Call),
    Reti(Reti),
    // conditional jumps
    Jnz(Jxx),
    Jz(Jxx),
    Jlo(Jxx),
    Jc(Jxx),
    Jn(Jxx),
    Jge(Jxx),
    Jl(Jxx),
    Jmp(Jxx),
    // two-operand instructions
    Mov(TwoOperand),
    Add(TwoOperand),
    Addc(TwoOperand),
    Subc(TwoOperand),
    Sub(TwoOperand),
    Cmp(TwoOperand),
    Dadd(TwoOperand),
    Bit(TwoOperand),
    Bic(TwoOperand),
    Bis(TwoOperand),
    Xor(TwoOperand),
    And(TwoOperand),
    // emulated instructions
    Adc(Emulated),
    Br(Emulated),
    Clr(Emulated),
    Clrc(Emulated),
    Clrn(Emulated),
    Clrz(Emulated),
    Dadc(Emulated),
    Dec(Emulated),
    Decd(Emulated),
    Dint(Emulated),
    Eint(Emulated),
    Inc(Emulated),
    Incd(Emulated),
    Inv(Emulated),
    Nop(Emulated),
    Pop(Emulated),
    Ret(Emulated),
    Rla(Emulated),
    Rlc(Emulated),
    Sbc(Emulated),
    Setc(Emulated),
    Setn(Emulated),
    Setz(Emulated),
    Tst(Emulated),
}

impl Instruction {
    /// Encoded length in bytes. For an emulated instruction it is the
    /// length of the two-operand instruction it was recognised in.
    pub open spec fn spec_size(self) -> nat {
        match self {
            Instruction::Rrc(i) => 2 + i.source.spec_size(),
            Instruction::Swpb(i) => 2 + i.source.spec_size(),
            Instruction::Rra(i) => 2 + i.source.spec_size(),
            Instruction::Sxt(i) => 2 + i.source.spec_size(),
            Instruction::Push(i) => 2 + i.source.spec_size(),
            Instruction::Call(i) => 2 + i.source.spec_size(),
            Instruction::Reti(_) => 2,
            Instruction::Jnz(_) |
            Instruction::Jz(_) |
            Instruction::Jlo(_) |
            Instruction::Jc(_) |
            Instruction::Jn(_) |
            Instruction::Jge(_) |
            Instruction::Jl(_) |
            Instruction::Jmp(_) => 2,
            Instruction::Mov(t) |
            Instruction::Add(t) |
            Instruction::Addc(t) |
            Instruction::Subc(t) |
            Instruction::Sub(t) |
            Instruction::Cmp(t) |
            Instruction::Dadd(t) |
            Instruction::Bit(t) |
            Instruction::Bic(t) |
            Instruction::Bis(t) |
            Instruction::Xor(t) |
            Instruction::And(t) => t.spec_size(),
            Instruction::Adc(e) |
            Instruction::Br(e) |
            Instruction::Clr(e) |
            Instruction::Clrc(e) |
            Instruction::Clrn(e) |
            Instruction::Clrz(e) |
            Instruction::Dadc(e) |
            Instruction::Dec(e) |
            Instruction::Decd(e) |
            Instruction::Dint(e) |
            Instruction::Eint(e) |
            Instruction::Inc(e) |
            Instruction::Incd(e) |
            Instruction::Inv(e) |
            Instruction::Nop(e) |
            Instruction::Pop(e) |
            Instruction::Ret(e) |
            Instruction::Rla(e) |
            Instruction::Rlc(e) |
            Instruction::Sbc(e) |
            Instruction::Setc(e) |
            Instruction::Setn(e) |
            Instruction::Setz(e) |
            Instruction::Tst(e) => e.spec_size(),
        }
    }

    /// Whether the instruction is one of the twelve two-operand forms.
    pub open spec fn is_two_operand(self) -> bool {
        match self {
            Instruction::Mov(_) |
            Instruction::Add(_) |
            Instruction::Addc(_) |
            Instruction::Subc(_) |
            Instruction::Sub(_) |
            Instruction::Cmp(_) |
            Instruction::Dadd(_) |
            Instruction::Bit(_) |
            Instruction::Bic(_) |
            Instruction::Bis(_) |
            Instruction::Xor(_) |
            Instruction::And(_) => true,
            _ => false,
        }
    }

    /// The invariant of a decoded instruction: its operands are well formed
    /// and a jump offset fits in ten bits.
    pub open spec fn wf(self) -> bool {
        match self {
            Instruction::Rrc(i) => i.source.wf(),
            Instruction::Swpb(i) => i.source.wf(),
            Instruction::Rra(i) => i.source.wf(),
            Instruction::Sxt(i) => i.source.wf(),
            Instruction::Push(i) => i.source.wf(),
            Instruction::Call(i) => i.source.wf(),
            Instruction::Reti(_) => true,
            Instruction::Jnz(j) |
            Instruction::Jz(j) |
            Instruction::Jlo(j) |
            Instruction::Jc(j) |
            Instruction::Jn(j) |
            Instruction::Jge(j) |
            Instruction::Jl(j) |
            Instruction::Jmp(j) => -512 <= j.offset < 512,
            Instruction::Mov(t) |
            Instruction::Add(t) |
            Instruction::Addc(t) |
            Instruction::Subc(t) |
            Instruction::Sub(t) |
            Instruction::Cmp(t) |
            Instruction::Dadd(t) |
            Instruction::Bit(t) |
            Instruction::Bic(t) |
            Instruction::Bis(t) |
            Instruction::Xor(t) |
            Instruction::And(t) => t.source.wf() && t.destination.wf(),
            Instruction::Adc(e) |
            Instruction::Br(e) |
            Instruction::Clr(e) |
            Instruction::Clrc(e) |
            Instruction::Clrn(e) |
            Instruction::Clrz(e) |
            Instruction::Dadc(e) |
            Instruction::Dec(e) |
            Instruction::Decd(e) |
            Instruction::Dint(e) |
            Instruction::Eint(e) |
            Instruction::Inc(e) |
            Instruction::Incd(e) |
            Instruction::Inv(e) |
            Instruction::Nop(e) |
            Instruction::Pop(e) |
            Instruction::Ret(e) |
            Instruction::Rla(e) |
            Instruction::Rlc(e) |
            Instruction::Sbc(e) |
            Instruction::Setc(e) |
            Instruction::Setn(e) |
            Instruction::Setz(e) |
            Instruction::Tst(e) => {
                &&& e.original.source.wf()
                &&& e.original.destination.wf()
                &&& (e.destination matches Some(d) ==> d.wf())
            },
        }
    }

    /// Whether the instruction is one of the eight conditional jumps.
    pub open spec fn is_jump(self) -> bool {
        match self {
            Instruction::Jnz(_) |
            Instruction::Jz(_) |
            Instruction::Jlo(_) |
            Instruction::Jc(_) |
            Instruction::Jn(_) |
            Instruction::Jge(_) |
            Instruction::Jl(_) |
            Instruction::Jmp(_) => true,
            _ => false,
        }
    }

    /// The offset of a conditional jump.
    pub open spec fn jump_offset(self) -> Option<i16> {
        match self {
            Instruction::Jnz(j) |
            Instruction::Jz(j) |
            Instruction::Jlo(j) |
            Instruction::Jc(j) |
            Instruction::Jn(j) |
            Instruction::Jge(j) |
            Instruction::Jl(j) |
            Instruction::Jmp(j) => Some(j.offset),
            _ => None,
        }
    }

    /// The two-operand instruction behind this one: the payload of a
    /// two-operand form, or the original of an emulated alias.
    pub open spec fn underlying(self) -> Option<TwoOperand> {
        match self {
            Instruction::Mov(t) |
            Instruction::Add(t) |
            Instruction::Addc(t) |
            Instruction::Subc(t) |
            Instruction::Sub(t) |
            Instruction::Cmp(t) |
            Instruction::Dadd(t) |
            Instruction::Bit(t) |
            Instruction::Bic(t) |
            Instruction::Bis(t) |
            Instruction::Xor(t) |
            Instruction::And(t) => Some(t),
            Instruction::Adc(e) |
            Instruction::Br(e) |
            Instruction::Clr(e) |
            Instruction::Clrc(e) |
            Instruction::Clrn(e) |
            Instruction::Clrz(e) |
            Instruction::Dadc(e) |
            Instruction::Dec(e) |
            Instruction::Decd(e) |
            Instruction::Dint(e) |
            Instruction::Eint(e) |
            Instruction::Inc(e) |
            Instruction::Incd(e) |
            Instruction::Inv(e) |
            Instruction::Nop(e) |
            Instruction::Pop(e) |
            Instruction::Ret(e) |
            Instruction::Rla(e) |
            Instruction::Rlc(e) |
            Instruction::Sbc(e) |
            Instruction::Setc(e) |
            Instruction::Setn(e) |
            Instruction::Setz(e) |
            Instruction::Tst(e) => Some(e.original),
            _ => None,
        }
    }

    /// Whether the instruction is one of the emulated aliases.
    pub open spec fn is_emulated(self) -> bool {
        match self {
            Instruction::Adc(_) |
            Instruction::Br(_) |
            Instruction::Clr(_) |
            Instruction::Clrc(_) |
            Instruction::Clrn(_) |
            Instruction::Clrz(_) |
            Instruction::Dadc(_) |
            Instruction::Dec(_) |
            Instruction::Decd(_) |
            Instruction::Dint(_) |
            Instruction::Eint(_) |
            Instruction::Inc(_) |
            Instruction::Incd(_) |
            Instruction::Inv(_) |
            Instruction::Nop(_) |
            Instruction::Pop(_) |
            Instruction::Ret(_) |
            Instruction::Rla(_) |
            Instruction::Rlc(_) |
            Instruction::Sbc(_) |
            Instruction::Setc(_) |
            Instruction::Setn(_) |
            Instruction::Setz(_) |
            Instruction::Tst(_) => true,
            _ => false,
        }
    }

    /// The operand width the instruction exposes, if any.
    pub open spec fn spec_operand_width(self) -> Option<OperandWidth> {
        match self {
            Instruction::Rrc(i) => i.operand_width,
            Instruction::Swpb(i) => i.operand_width,
            Instruction::Rra(i) => i.operand_width,
            Instruction::Sxt(i) => i.operand_width,
            Instruction::Push(i) => i.operand_width,
            Instruction::Call(i) => i.operand_width,
            Instruction::Reti(_) => None,
            Instruction::Jnz(_) |
            Instruction::Jz(_) |
            Instruction::Jlo(_) |
            Instruction::Jc(_) |
            Instruction::Jn(_) |
            Instruction::Jge(_) |
            Instruction::Jl(_) |
            Instruction::Jmp(_) => None,
            Instruction::Mov(t) |
            Instruction::Add(t) |
            Instruction::Addc(t) |
            Instruction::Subc(t) |
            Instruction::Sub(t) |
            Instruction::Cmp(t) |
            Instruction::Dadd(t) |
            Instruction::Bit(t) |
            Instruction::Bic(t) |
            Instruction::Bis(t) |
            Instruction::Xor(t) |
            Instruction::And(t) => Some(t.operand_width),
            Instruction::Adc(e) |
            Instruction::Br(e) |
            Instruction::Clr(e) |
            Instruction::Clrc(e) |
            Instruction::Clrn(e) |
            Instruction::Clrz(e) |
            Instruction::Dadc(e) |
            Instruction::Dec(e) |
            Instruction::Decd(e) |
            Instruction::Dint(e) |
            Instruction::Eint(e) |
            Instruction::Inc(e) |
            Instruction::Incd(e) |
            Instruction::Inv(e) |
            Instruction::Nop(e) |
            Instruction::Pop(e) |
            Instruction::Ret(e) |
            Instruction::Rla(e) |
            Instruction::Rlc(e) |
            Instruction::Sbc(e) |
            Instruction::Setc(e) |
            Instruction::Setn(e) |
            Instruction::Setz(e) |
            Instruction::Tst(e) => e.operand_width,
        }
    }

    /// The mnemonic, without a width suffix.
    pub open spec fn spec_mnemonic(self) -> Seq<char> {
        match self {
            Instruction::Rrc(_) => "rrc"@,
            Instruction::Swpb(_) => "swpb"@,
            Instruction::Rra(_) => "rra"@,
            Instruction::Sxt(_) => "sxt"@,
            Instruction::Push(_) => "push"@,
            Instruction::Call(_) => "call"@,
            Instruction::Reti(_) => "reti"@,
            Instruction::Jnz(_) => "jnz"@,
            Instruction::Jz(_) => "jz"@,
            Instruction::Jlo(_) => "jlo"@,
            Instruction::Jc(_) => "jc"@,
            Instruction::Jn(_) => "jn"@,
            Instruction::Jge(_) => "jge"@,
            Instruction::Jl(_) => "jl"@,
            Instruction::Jmp(_) => "jmp"@,
            Instruction::Mov(_) => "mov"@,
            Instruction::Add(_) => "add"@,
            Instruction::Addc(_) => "addc"@,
            Instruction::Subc(_) => "subc"@,
            Instruction::Sub(_) => "sub"@,
            Instruction::Cmp(_) => "cmp"@,
            Instruction::Dadd(_) => "dadd"@,
            Instruction::Bit(_) => "bit"@,
            Instruction::Bic(_) => "bic"@,
            Instruction::Bis(_) => "bis"@,
            Instruction::Xor(_) => "xor"@,
            Instruction::And(_) => "and"@,
            Instruction::Adc(_) => "adc"@,
            Instruction::Br(_) => "br"@,
            Instruction::Clr(_) => "clr"@,
            Instruction::Clrc(_) => "clrc"@,
            Instruction::Clrn(_) => "clrn"@,
            Instruction::Clrz(_) => "clrz"@,
            Instruction::Dadc(_) => "dadc"@,
            Instruction::Dec(_) => "dec"@,
            Instruction::Decd(_) => "decd"@,
            Instruction::Dint(_) => "dint"@,
            Instruction::Eint(_) => "eint"@,
            Instruction::Inc(_) => "inc"@,
            Instruction::Incd(_) => "incd"@,
            Instruction::Inv(_) => "inv"@,
            Instruction::Nop(_) => "nop"@,
            Instruction::Pop(_) => "pop"@,
            Instruction::Ret(_) => "ret"@,
            Instruction::Rla(_) => "rla"@,
            Instruction::Rlc(_) => "rlc"@,
            Instruction::Sbc(_) => "sbc"@,
            Instruction::Setc(_) => "setc"@,
            Instruction::Setn(_) => "setn"@,
            Instruction::Setz(_) => "setz"@,
            Instruction::Tst(_) => "tst"@,
        }
    }

    /// The canonical disassembly text: the mnemonic, `.b` for a byte-wide
    /// operation that carries a width, then the operands. An emulated
    /// instruction shows its destination only.
    pub open spec fn text(self) -> Seq<char> {
        let m = self.spec_mnemonic();
        match self {
            Instruction::Rrc(i) => m + width_suffix(i.operand_width) + " "@ + operand_text(i.source),
            Instruction::Swpb(i) => m + width_suffix(i.operand_width) + " "@ + operand_text(i.source),
            Instruction::Rra(i) => m + width_suffix(i.operand_width) + " "@ + operand_text(i.source),
            Instruction::Sxt(i) => m + width_suffix(i.operand_width) + " "@ + operand_text(i.source),
            Instruction::Push(i) => m + width_suffix(i.operand_width) + " "@ + operand_text(i.source),
            Instruction::Call(i) => m + width_suffix(i.operand_width) + " "@ + operand_text(i.source),
            Instruction::Reti(_) => m,
            Instruction::Jnz(j) |
            Instruction::Jz(j) |
            Instruction::Jlo(j) |
            Instruction::Jc(j) |
            Instruction::Jn(j) |
            Instruction::Jge(j) |
            Instruction::Jl(j) |
            Instruction::Jmp(j) => m + " #"@ + signed_hex_text(j.offset as int),
            Instruction::Mov(t) |
            Instruction::Add(t) |
            Instruction::Addc(t) |
            Instruction::Subc(t) |
            Instruction::Sub(t) |
            Instruction::Cmp(t) |
            Instruction::Dadd(t) |
            Instruction::Bit(t) |
            Instruction::Bic(t) |
            Instruction::Bis(t) |
            Instruction::Xor(t) |
            Instruction::And(t) => m + width_suffix(Some(t.operand_width)) + " "@ + operand_text(t.source) + ", "@
                + operand_text(t.destination),
            Instruction::Adc(e) |
            Instruction::Br(e) |
            Instruction::Clr(e) |
            Instruction::Clrc(e) |
            Instruction::Clrn(e) |
            Instruction::Clrz(e) |
            Instruction::Dadc(e) |
            Instruction::Dec(e) |
            Instruction::Decd(e) |
            Instruction::Dint(e) |
            Instruction::Eint(e) |
            Instruction::Inc(e) |
            Instruction::Incd(e) |
            Instruction::Inv(e) |
            Instruction::Nop(e) |
            Instruction::Pop(e) |
            Instruction::Ret(e) |
            Instruction::Rla(e) |
            Instruction::Rlc(e) |
            Instruction::Sbc(e) |
            Instruction::Setc(e) |
            Instruction::Setn(e) |
            Instruction::Setz(e) |
            Instruction::Tst(e) => match e.destination {
                Some(d) => m + width_suffix(e.operand_width) + " "@ + operand_text(d),
                None => m + width_suffix(e.operand_width),
            },
        }
    }

    /// The mnemonic, without a width suffix.
    pub fn mnemonic(&self) -> (r: &'static str)
        ensures
            r@ == self.spec_mnemonic(),
    {
        match self {
            Instruction::Rrc(_) => "rrc",
            Instruction::Swpb(_) => "swpb",
            Instruction::Rra(_) => "rra",
            Instruction::Sxt(_) => "sxt",
            Instruction::Push(_) => "push",
            Instruction::Call(_) => "call",
            Instruction::Reti(_) => "reti",
            Instruction::Jnz(_) => "jnz",
            Instruction::Jz(_) => "jz",
            Instruction::Jlo(_) => "jlo",
            Instruction::Jc(_) => "jc",
            Instruction::Jn(_) => "jn",
            Instruction::Jge(_) => "jge",
            Instruction::Jl(_) => "jl",
            Instruction::Jmp(_) => "jmp",
            Instruction::Mov(_) => "mov",
            Instruction::Add(_) => "add",
            Instruction::Addc(_) => "addc",
            Instruction::Subc(_) => "subc",
            Instruction::Sub(_) => "sub",
            Instruction::Cmp(_) => "cmp",
            Instruction::Dadd(_) => "dadd",
            Instruction::Bit(_) => "bit",
            Instruction::Bic(_) => "bic",
            Instruction::Bis(_) => "bis",
            Instruction::Xor(_) => "xor",
            Instruction::And(_) => "and",
            Instruction::Adc(_) => "adc",
            Instruction::Br(_) => "br",
            Instruction::Clr(_) => "clr",
            Instruction::Clrc(_) => "clrc",
            Instruction::Clrn(_) => "clrn",
            Instruction::Clrz(_) => "clrz",
            Instruction::Dadc(_) => "dadc",
            Instruction::Dec(_) => "dec",
            Instruction::Decd(_) => "decd",
            Instruction::Dint(_) => "dint",
            Instruction::Eint(_) => "eint",
            Instruction::Inc(_) => "inc",
            Instruction::Incd(_) => "incd",
            Instruction::Inv(_) => "inv",
            Instruction::Nop(_) => "nop",
            Instruction::Pop(_) => "pop",
            Instruction::Ret(_) => "ret",
            Instruction::Rla(_) => "rla",
            Instruction::Rlc(_) => "rlc",
            Instruction::Sbc(_) => "sbc",
            Instruction::Setc(_) => "setc",
            Instruction::Setn(_) => "setn",
            Instruction::Setz(_) => "setz",
            Instruction::Tst(_) => "tst",
        }
    }

    /// The canonical disassembly text.
    pub fn to_string(&self) -> (r: String)
        ensures
            r@ == self.text(),
    {
        let mut s = String::from_str(self.mnemonic());
        match *self {
            Instruction::Rrc(i) => {
                append_width_suffix(&mut s, i.operand_width);
                s.append(" ");
                append_operand(&mut s, i.source);
            },
            Instruction::Swpb(i) => {
                append_width_suffix(&mut s, i.operand_width);
                s.append(" ");
                append_operand(&mut s, i.source);
            },
            Instruction::Rra(i) => {
                append_width_suffix(&mut s, i.operand_width);
                s.append(" ");
                append_operand(&mut s, i.source);
            },
            Instruction::Sxt(i) => {
                append_width_suffix(&mut s, i.operand_width);
                s.append(" ");
                append_operand(&mut s, i.source);
            },
            Instruction::Push(i) => {
                append_width_suffix(&mut s, i.operand_width);
                s.append(" ");
                append_operand(&mut s, i.source);
            },
            Instruction::Call(i) => {
                append_width_suffix(&mut s, i.operand_width);
                s.append(" ");
                append_operand(&mut s, i.source);
            },
            Instruction::Reti(_) => {},
            Instruction::Jnz(j) |
            Instruction::Jz(j) |
            Instruction::Jlo(j) |
            Instruction::Jc(j) |
            Instruction::Jn(j) |
            Instruction::Jge(j) |
            Instruction::Jl(j) |
            Instruction::Jmp(j) => {
                s.append(" #");
                append_signed_hex(&mut s, j.offset);
            },
            Instruction::Mov(t) |
            Instruction::Add(t) |
            Instruction::Addc(t) |
            Instruction::Subc(t) |
            Instruction::Sub(t) |
            Instruction::Cmp(t) |
            Instruction::Dadd(t) |
            Instruction::Bit(t) |
            Instruction::Bic(t) |
            Instruction::Bis(t) |
            Instruction::Xor(t) |
            Instruction::And(t) => {
                append_width_suffix(&mut s, Some(t.operand_width));
                s.append(" ");
                append_operand(&mut s, t.source);
                s.append(", ");
                append_operand(&mut s, t.destination);
            },
            Instruction::Adc(e) |
            Instruction::Br(e) |
            Instruction::Clr(e) |
            Instruction::Clrc(e) |
            Instruction::Clrn(e) |
            Instruction::Clrz(e) |
            Instruction::Dadc(e) |
            Instruction::Dec(e) |
            Instruction::Decd(e) |
            Instruction::Dint(e) |
            Instruction::Eint(e) |
            Instruction::Inc(e) |
            Instruction::Incd(e) |
            Instruction::Inv(e) |
            Instruction::Nop(e) |
            Instruction::Pop(e) |
            Instruction::Ret(e) |
            Instruction::Rla(e) |
            Instruction::Rlc(e) |
            Instruction::Sbc(e) |
            Instruction::Setc(e) |
            Instruction::Setn(e) |
            Instruction::Setz(e) |
            Instruction::Tst(e) => {
                append_width_suffix(&mut s, e.operand_width);
                if let Some(d) = e.destination {
                    s.append(" ");
                    append_operand(&mut s, d);
                }
            },
        }
        s
    }

    /// Encoded length in bytes: 2, 4 or 6.
    pub fn size(&self) -> (r: usize)
        ensures
            r == self.spec_size(),
    {
        match self {
            Instruction::Rrc(i) => 2 + i.source.size(),
            Instruction::Swpb(i) => 2 + i.source.size(),
            Instruction::Rra(i) => 2 + i.source.size(),
            Instruction::Sxt(i) => 2 + i.source.size(),
            Instruction::Push(i) => 2 + i.source.size(),
            Instruction::Call(i) => 2 + i.source.size(),
            Instruction::Reti(_) => 2,
            Instruction::Jnz(_) |
            Instruction::Jz(_) |
            Instruction::Jlo(_) |
            Instruction::Jc(_) |
            Instruction::Jn(_) |
            Instruction::Jge(_) |
            Instruction::Jl(_) |
            Instruction::Jmp(_) => 2,
            Instruction::Mov(t) |
            Instruction::Add(t) |
            Instruction::Addc(t) |
            Instruction::Subc(t) |
            Instruction::Sub(t) |
            Instruction::Cmp(t) |
            Instruction::Dadd(t) |
            Instruction::Bit(t) |
            Instruction::Bic(t) |
            Instruction::Bis(t) |
            Instruction::Xor(t) |
            Instruction::And(t) => t.size(),
            Instruction::Adc(e) |
            Instruction::Br(e) |
            Instruction::Clr(e) |
            Instruction::Clrc(e) |
            Instruction::Clrn(e) |
            Instruction::Clrz(e) |
            Instruction::Dadc(e) |
            Instruction::Dec(e) |
            Instruction::Decd(e) |
            Instruction::Dint(e) |
            Instruction::Eint(e) |
            Instruction::Inc(e) |
            Instruction::Incd(e) |
            Instruction::Inv(e) |
            Instruction::Nop(e) |
            Instruction::Pop(e) |
            Instruction::Ret(e) |
            Instruction::Rla(e) |
            Instruction::Rlc(e) |
            Instruction::Sbc(e) |
            Instruction::Setc(e) |
            Instruction::Setn(e) |
            Instruction::Setz(e) |
            Instruction::Tst(e) => e.size(),
        }
    }

    /// The same as `size`.
    pub fn len(&self) -> (r: usize)
        ensures
            r == self.spec_size(),
    {
        self.size()
    }

    /// The operand width, where the instruction has one.
    pub fn operand_width(&self) -> (r: Option<OperandWidth>)
        ensures
            r == self.spec_operand_width(),
    {
        match self {
            Instruction::Rrc(i) => i.operand_width(),
            Instruction::Swpb(i) => i.operand_width(),
            Instruction::Rra(i) => i.operand_width(),
            Instruction::Sxt(i) => i.operand_width(),
            Instruction::Push(i) => i.operand_width(),
            Instruction::Call(i) => i.operand_width(),
            Instruction::Reti(_) => None,
            Instruction::Jnz(_) |
            Instruction::Jz(_) |
            Instruction::Jlo(_) |
            Instruction::Jc(_) |
            Instruction::Jn(_) |
            Instruction::Jge(_) |
            Instruction::Jl(_) |
            Instruction::Jmp(_) => None,
            Instruction::Mov(t) |
            Instruction::Add(t) |
            Instruction::Addc(t) |
            Instruction::Subc(t) |
            Instruction::Sub(t) |
            Instruction::Cmp(t) |
            Instruction::Dadd(t) |
            Instruction::Bit(t) |
            Instruction::Bic(t) |
            Instruction::Bis(t) |
            Instruction::Xor(t) |
            Instruction::And(t) => Some(t.operand_width),
            Instruction::Adc(e) |
            Instruction::Br(e) |
            Instruction::Clr(e) |
            Instruction::Clrc(e) |
            Instruction::Clrn(e) |
            Instruction::Clrz(e) |
            Instruction::Dadc(e) |
            Instruction::Dec(e) |
            Instruction::Decd(e) |
            Instruction::Dint(e) |
            Instruction::Eint(e) |
            Instruction::Inc(e) |
            Instruction::Incd(e) |
            Instruction::Inv(e) |
            Instruction::Nop(e) |
            Instruction::Pop(e) |
            Instruction::Ret(e) |
            Instruction::Rla(e) |
            Instruction::Rlc(e) |
            Instruction::Sbc(e) |
            Instruction::Setc(e) |
            Instruction::Setn(e) |
            Instruction::Setz(e) |
            Instruction::Tst(e) => e.operand_width,
        }
    }
}

} // verus!
