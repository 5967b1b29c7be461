//! Emulated instructions: aliases that name a two-operand instruction of a
//! well-known shape.

use crate::instruction::Instruction;
use crate::operand::{Operand, OperandWidth};
use crate::two_operand::TwoOperand;
use vstd::prelude::*;

verus! {

/// The payload of an emulated instruction. It keeps the two-operand
/// instruction it was recognised in, since the alias alone does not say
/// how the operands were encoded.
#[derive(Debug, Clone, Copy, PartialEq, Eq)]
pub struct Emulated {
    pub destination: Option<Operand>,
    pub operand_width: Option<OperandWidth>,
    pub original: TwoOperand,
}

impl Emulated {
    pub open spec fn new_spec(
        destination: Option<Operand>,
        operand_width: Option<OperandWidth>,
        original: TwoOperand,
    ) -> Emulated {
        Emulated { destination, operand_width, original }
    }

    /// The payload of an alias that keeps the destination and the width of
    /// its original.
    pub open spec fn with_destination(t: TwoOperand) -> Emulated {
        Emulated::new_spec(Some(t.destination), Some(t.operand_width), t)
    }

    pub open spec fn spec_size(self) -> nat {
        self.original.spec_size()
    }

    pub fn new(
        destination: Option<Operand>,
        operand_width: Option<OperandWidth>,
        original: TwoOperand,
    ) -> (r: Emulated)
        ensures
            r == Emulated::new_spec(destination, operand_width, original),
    {
        Emulated { destination, operand_width, original }
    }

    pub fn destination(&self) -> (r: Option<Operand>)
        ensures
            r == self.destination,
    {
        self.destination
    }

    pub fn operand_width(&self) -> (r: Option<OperandWidth>)
        ensures
            r == self.operand_width,
    {
        self.operand_width
    }

    pub fn original(&self) -> (r: TwoOperand)
        ensures
            r == self.original,
    {
        self.original
    }

    /// The length of the instruction it was recognised in.
    pub fn size(&self) -> (r: usize)
        ensures
            r == self.spec_size(),
    {
        self.original.size()
    }
}

/// The alias `i` is an instance of, or `None`. Within each opcode the
/// rules are tried in order and the first that matches wins. The alias
/// keeps `i`'s operands as its original.
pub open spec fn spec_emulation(i: Instruction) -> Option<Instruction> {
    match i {
        Instruction::Mov(t) => {
            if t.source == Operand::Constant(0) && t.destination == Operand::RegisterDirect(3) {
                Some(Instruction::Nop(Emulated::new_spec(None, None, t)))
            } else if (t.source == Operand::Constant(0) || t.source == Operand::Immediate(0))
                && t.destination is RegisterDirect {
                Some(Instruction::Clr(Emulated::new_spec(Some(t.destination), None, t)))
            } else if t.source == Operand::RegisterIndirectAutoIncrement(1) {
                if t.destination == Operand::RegisterDirect(0) {
                    Some(Instruction::Ret(Emulated::new_spec(None, None, t)))
                } else {
                    Some(
                        Instruction::Pop(
                            Emulated::new_spec(Some(t.destination), Some(t.operand_width), t),
                        ),
                    )
                }
            } else if t.destination == Operand::RegisterDirect(0) {
                Some(Instruction::Br(Emulated::new_spec(Some(t.source), None, t)))
            } else {
                None
            }
        },
        Instruction::Add(t) => {
            if t.source == Operand::Constant(1) {
                Some(Instruction::Inc(Emulated::new_spec(Some(t.destination), None, t)))
            } else if t.source == Operand::Constant(2) {
                Some(Instruction::Incd(Emulated::new_spec(Some(t.destination), None, t)))
            } else if t.source == t.destination {
                Some(Instruction::Rla(Emulated::with_destination(t)))
            } else {
                None
            }
        },
        Instruction::Addc(t) => {
            if t.source == Operand::Constant(0) {
                Some(Instruction::Adc(Emulated::with_destination(t)))
            } else if t.source == t.destination {
                Some(Instruction::Rlc(Emulated::with_destination(t)))
            } else {
                None
            }
        },
        Instruction::Subc(t) => {
            if t.source == Operand::Constant(0) {
                Some(Instruction::Sbc(Emulated::with_destination(t)))
            } else {
                None
            }
        },
        Instruction::Sub(t) => {
            if t.source == Operand::Constant(1) {
                Some(Instruction::Dec(Emulated::with_destination(t)))
            } else if t.source == Operand::Constant(2) {
                Some(Instruction::Decd(Emulated::with_destination(t)))
            } else {
                None
            }
        },
        Instruction::Cmp(t) => {
            if t.source == Operand::Constant(0) {
                Some(Instruction::Tst(Emulated::with_destination(t)))
            } else {
                None
            }
        },
        Instruction::Dadd(t) => {
            if t.source == Operand::Constant(0) {
                Some(Instruction::Dadc(Emulated::with_destination(t)))
            } else {
                None
            }
        },
        Instruction::Bic(t) => {
            let e = Emulated::new_spec(None, None, t);
            if t.destination != Operand::RegisterDirect(2) {
                None
            } else if t.source == Operand::Constant(1) {
                Some(Instruction::Clrc(e))
            } else if t.source == Operand::Constant(2) {
                Some(Instruction::Clrn(e))
            } else if t.source == Operand::Constant(4) {
                Some(Instruction::Clrz(e))
            } else if t.source == Operand::Constant(8) {
                Some(Instruction::Dint(e))
            } else {
                None
            }
        },
        Instruction::Bis(t) => {
            let e = Emulated::new_spec(None, None, t);
            if t.destination != Operand::RegisterDirect(2) {
                None
            } else if t.source == Operand::Constant(1) {
                Some(Instruction::Setc(e))
            } else if t.source == Operand::Constant(2) {
                Some(Instruction::Setz(e))
            } else if t.source == Operand::Constant(4) {
                Some(Instruction::Setn(e))
            } else if t.source == Operand::Constant(8) {
                Some(Instruction::Eint(e))
            } else {
                None
            }
        },
        Instruction::Xor(t) => {
            if t.source == Operand::Constant(-1i8) {
                Some(Instruction::Inv(Emulated::with_destination(t)))
            } else {
                None
            }
        },
        _ => None,
    }
}

/// Only two-operand instructions have aliases, and an alias keeps the
/// instruction it was recognised in: same underlying operands, same size.
pub proof fn lemma_emulation_preserves_original(i: Instruction)
    requires
        spec_emulation(i) is Some,
    ensures
        i.is_two_operand(),
        spec_emulation(i)->Some_0.is_emulated(),
        spec_emulation(i)->Some_0.underlying() == i.underlying(),
        spec_emulation(i)->Some_0.spec_size() == i.spec_size(),
{
}

/// Rewriting an instruction into the emulated alias it is an instance of.
pub trait Emulate {
    spec fn spec_emulate(&self) -> Option<Instruction>;

    fn emulate(&self) -> (r: Option<Instruction>)
        ensures
            r == self.spec_emulate(),
    ;
}

impl Emulate for Instruction {
    open spec fn spec_emulate(&self) -> Option<Instruction> {
        spec_emulation(*self)
    }

    fn emulate(&self) -> (r: Option<Instruction>) {
        match *self {
            Instruction::Mov(t) => {
                if t.source == Operand::Constant(0) && t.destination == Operand::RegisterDirect(
                    3,
                ) {
                    return Some(Instruction::Nop(Emulated::new(None, None, t)));
                }
                if t.source == Operand::Constant(0) || t.source == Operand::Immediate(0) {
                    if let Operand::RegisterDirect(_) = t.destination {
                        return Some(Instruction::Clr(Emulated::new(Some(t.destination), None, t)));
                    }
                }
                if t.source == Operand::RegisterIndirectAutoIncrement(1) {
                    if t.destination == Operand::RegisterDirect(0) {
                        return Some(Instruction::Ret(Emulated::new(None, None, t)));
                    } else {
                        return Some(
                            Instruction::Pop(
                                Emulated::new(Some(t.destination), Some(t.operand_width), t),
                            ),
                        );
                    }
                }
                if t.destination == Operand::RegisterDirect(0) {
                    return Some(Instruction::Br(Emulated::new(Some(t.source), None, t)));
                }
                None
            },
            Instruction::Add(t) => {
                if t.source == Operand::Constant(1) {
                    Some(Instruction::Inc(Emulated::new(Some(t.destination), None, t)))
                } else if t.source == Operand::Constant(2) {
                    Some(Instruction::Incd(Emulated::new(Some(t.destination), None, t)))
                } else if t.source == t.destination {
                    Some(Instruction::Rla(keep_destination(t)))
                } else {
                    None
                }
            },
            Instruction::Addc(t) => {
                if t.source == Operand::Constant(0) {
                    Some(Instruction::Adc(keep_destination(t)))
                } else if t.source == t.destination {
                    Some(Instruction::Rlc(keep_destination(t)))
                } else {
                    None
                }
            },
            Instruction::Subc(t) => {
                if t.source == Operand::Constant(0) {
                    Some(Instruction::Sbc(keep_destination(t)))
                } else {
                    None
                }
            },
            Instruction::Sub(t) => {
                if t.source == Operand::Constant(1) {
                    Some(Instruction::Dec(keep_destination(t)))
                } else if t.source == Operand::Constant(2) {
                    Some(Instruction::Decd(keep_destination(t)))
                } else {
                    None
                }
            },
            Instruction::Cmp(t) => {
                if t.source == Operand::Constant(0) {
                    Some(Instruction::Tst(keep_destination(t)))
                } else {
                    None
                }
            },
            Instruction::Dadd(t) => {
                if t.source == Operand::Constant(0) {
                    Some(Instruction::Dadc(keep_destination(t)))
                } else {
                    None
                }
            },
            Instruction::Bic(t) => {
                let e = Emulated::new(None, None, t);
                if t.destination != Operand::RegisterDirect(2) {
                    None
                } else if t.source == Operand::Constant(1) {
                    Some(Instruction::Clrc(e))
                } else if t.source == Operand::Constant(2) {
                    Some(Instruction::Clrn(e))
                } else if t.source == Operand::Constant(4) {
                    Some(Instruction::Clrz(e))
                } else if t.source == Operand::Constant(8) {
                    Some(Instruction::Dint(e))
                } else {
                    None
                }
            },
            Instruction::Bis(t) => {
                let e = Emulated::new(None, None, t);
                if t.destination != Operand::RegisterDirect(2) {
                    None
                } else if t.source == Operand::Constant(1) {
                    Some(Instruction::Setc(e))
                } else if t.source == Operand::Constant(2) {
                    Some(Instruction::Setz(e))
                } else if t.source == Operand::Constant(4) {
                    Some(Instruction::Setn(e))
                } else if t.source == Operand::Constant(8) {
                    Some(Instruction::Eint(e))
                } else {
                    None
                }
            },
            Instruction::Xor(t) => {
                if t.source == Operand::Constant(-1i8) {
                    Some(Instruction::Inv(keep_destination(t)))
                } else {
                    None
                }
            },
            _ => None,
        }
    }
}

/// The alias payload that keeps the destination and the width of `t`.
fn keep_destination(t: TwoOperand) -> (r: Emulated)
    ensures
        r == Emulated::with_destination(t),
{
    Emulated::new(Some(t.destination), Some(t.operand_width), t)
}

} // verus!
