//! The single-operand instructions. Each has its own type; `Reti` takes no
//! operand.

use crate::operand::{AddressingMode, Operand, OperandWidth};
use vstd::prelude::*;

verus! {

/// What every single-operand instruction with an operand offers.
pub trait SingleOperand {
    spec fn spec_source(&self) -> Operand;

    spec fn spec_operand_width(&self) -> Option<OperandWidth>;

    /// The source operand.
    fn source(&self) -> (r: Operand)
        ensures
            r == self.spec_source(),
    ;

    /// The operand width, where the instruction has one.
    fn operand_width(&self) -> (r: Option<OperandWidth>)
        ensures
            r == self.spec_operand_width(),
    ;

    /// Encoded length in bytes: the instruction word and the source's
    /// extension word, if any.
    fn size(&self) -> (r: usize)
        ensures
            r == 2 + self.spec_source().spec_size(),
    ;
}

/// Rotate right through carry.
#[derive(Debug, Clone, Copy, PartialEq, Eq)]
pub struct Rrc {
    pub source: Operand,
    pub operand_width: Option<OperandWidth>,
}

impl Rrc {
    pub fn new(source: Operand, operand_width: Option<OperandWidth>) -> (r: Rrc)
        ensures
            r == (Rrc { source, operand_width }),
    {
        Rrc { source, operand_width }
    }

    /// The addressing mode of the source operand.
    pub fn addressing_mode(&self) -> (r: AddressingMode)
        ensures
            r == self.source.mode(),
    {
        self.source.addressing_mode()
    }
}

impl SingleOperand for Rrc {
    open spec fn spec_source(&self) -> Operand {
        self.source
    }

    open spec fn spec_operand_width(&self) -> Option<OperandWidth> {
        self.operand_width
    }

    fn source(&self) -> (r: Operand) {
        self.source
    }

    fn operand_width(&self) -> (r: Option<OperandWidth>) {
        self.operand_width
    }

    fn size(&self) -> (r: usize) {
        2 + self.source.size()
    }
}

/// Swap the bytes of a word.
#[derive(Debug, Clone, Copy, PartialEq, Eq)]
pub struct Swpb {
    pub source: Operand,
    pub operand_width: Option<OperandWidth>,
}

impl Swpb {
    pub fn new(source: Operand, operand_width: Option<OperandWidth>) -> (r: Swpb)
        ensures
            r == (Swpb { source, operand_width }),
    {
        Swpb { source, operand_width }
    }

    /// The addressing mode of the source operand.
    pub fn addressing_mode(&self) -> (r: AddressingMode)
        ensures
            r == self.source.mode(),
    {
        self.source.addressing_mode()
    }
}

impl SingleOperand for Swpb {
    open spec fn spec_source(&self) -> Operand {
        self.source
    }

    open spec fn spec_operand_width(&self) -> Option<OperandWidth> {
        self.operand_width
    }

    fn source(&self) -> (r: Operand) {
        self.source
    }

    fn operand_width(&self) -> (r: Option<OperandWidth>) {
        self.operand_width
    }

    fn size(&self) -> (r: usize) {
        2 + self.source.size()
    }
}

/// Rotate right arithmetically.
#[derive(Debug, Clone, Copy, PartialEq, Eq)]
pub struct Rra {
    pub source: Operand,
    pub operand_width: Option<OperandWidth>,
}

impl Rra {
    pub fn new(source: Operand, operand_width: Option<OperandWidth>) -> (r: Rra)
        ensures
            r == (Rra { source, operand_width }),
    {
        Rra { source, operand_width }
    }

    /// The addressing mode of the source operand.
    pub fn addressing_mode(&self) -> (r: AddressingMode)
        ensures
            r == self.source.mode(),
    {
        self.source.addressing_mode()
    }
}

impl SingleOperand for Rra {
    open spec fn spec_source(&self) -> Operand {
        self.source
    }

    open spec fn spec_operand_width(&self) -> Option<OperandWidth> {
        self.operand_width
    }

    fn source(&self) -> (r: Operand) {
        self.source
    }

    fn operand_width(&self) -> (r: Option<OperandWidth>) {
        self.operand_width
    }

    fn size(&self) -> (r: usize) {
        2 + self.source.size()
    }
}

/// Sign-extend a byte to a word.
#[derive(Debug, Clone, Copy, PartialEq, Eq)]
pub struct Sxt {
    pub source: Operand,
    pub operand_width: Option<OperandWidth>,
}

impl Sxt {
    pub fn new(source: Operand, operand_width: Option<OperandWidth>) -> (r: Sxt)
        ensures
            r == (Sxt { source, operand_width }),
    {
        Sxt { source, operand_width }
    }

    /// The addressing mode of the source operand.
    pub fn addressing_mode(&self) -> (r: AddressingMode)
        ensures
            r == self.source.mode(),
    {
        self.source.addressing_mode()
    }
}

impl SingleOperand for Sxt {
    open spec fn spec_source(&self) -> Operand {
        self.source
    }

    open spec fn spec_operand_width(&self) -> Option<OperandWidth> {
        self.operand_width
    }

    fn source(&self) -> (r: Operand) {
        self.source
    }

    fn operand_width(&self) -> (r: Option<OperandWidth>) {
        self.operand_width
    }

    fn size(&self) -> (r: usize) {
        2 + self.source.size()
    }
}

/// Push onto the stack.
#[derive(Debug, Clone, Copy, PartialEq, Eq)]
pub struct Push {
    pub source: Operand,
    pub operand_width: Option<OperandWidth>,
}

impl Push {
    pub fn new(source: Operand, operand_width: Option<OperandWidth>) -> (r: Push)
        ensures
            r == (Push { source, operand_width }),
    {
        Push { source, operand_width }
    }

    /// The addressing mode of the source operand.
    pub fn addressing_mode(&self) -> (r: AddressingMode)
        ensures
            r == self.source.mode(),
    {
        self.source.addressing_mode()
    }
}

impl SingleOperand for Push {
    open spec fn spec_source(&self) -> Operand {
        self.source
    }

    open spec fn spec_operand_width(&self) -> Option<OperandWidth> {
        self.operand_width
    }

    fn source(&self) -> (r: Operand) {
        self.source
    }

    fn operand_width(&self) -> (r: Option<OperandWidth>) {
        self.operand_width
    }

    fn size(&self) -> (r: usize) {
        2 + self.source.size()
    }
}

/// Call a subroutine.
#[derive(Debug, Clone, Copy, PartialEq, Eq)]
pub struct Call {
    pub source: Operand,
    pub operand_width: Option<OperandWidth>,
}

impl Call {
    pub fn new(source: Operand, operand_width: Option<OperandWidth>) -> (r: Call)
        ensures
            r == (Call { source, operand_width }),
    {
        Call { source, operand_width }
    }

    /// The addressing mode of the source operand.
    pub fn addressing_mode(&self) -> (r: AddressingMode)
        ensures
            r == self.source.mode(),
    {
        self.source.addressing_mode()
    }
}

impl SingleOperand for Call {
    open spec fn spec_source(&self) -> Operand {
        self.source
    }

    open spec fn spec_operand_width(&self) -> Option<OperandWidth> {
        self.operand_width
    }

    fn source(&self) -> (r: Operand) {
        self.source
    }

    fn operand_width(&self) -> (r: Option<OperandWidth>) {
        self.operand_width
    }

    fn size(&self) -> (r: usize) {
        2 + self.source.size()
    }
}

/// Return from interrupt. It has no operand, whatever the low bits of its
/// word hold.
#[derive(Debug, Clone, Copy, PartialEq, Eq, Structural)]
pub struct Reti {}

impl Reti {
    pub fn new() -> (r: Reti) {
        Reti {  }
    }

    /// A `reti` is always one word long.
    pub fn size(&self) -> (r: usize)
        ensures
            r == 2,
    {
        2
    }
}

} // verus!
