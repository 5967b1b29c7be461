//! The payload shared by the twelve two-operand instructions.

use crate::operand::{Operand, OperandWidth};
use vstd::prelude::*;

verus! {

/// Source, width and destination of a two-operand instruction.
#[derive(Debug, Clone, Copy, PartialEq, Eq)]
pub struct TwoOperand {
    pub source: Operand,
    pub operand_width: OperandWidth,
    pub destination: Operand,
}

impl TwoOperand {
    /// The instruction word, then the source's extension word, then the
    /// destination's.
    pub open spec fn spec_size(self) -> nat {
        2 + self.source.spec_size() + self.destination.spec_size()
    }

    pub fn new(source: Operand, operand_width: OperandWidth, destination: Operand) -> (r:
        TwoOperand)
        ensures
            r == (TwoOperand { source, operand_width, destination }),
    {
        TwoOperand { source, operand_width, destination }
    }

    pub fn source(&self) -> (r: Operand)
        ensures
            r == self.source,
    {
        self.source
    }

    pub fn destination(&self) -> (r: Operand)
        ensures
            r == self.destination,
    {
        self.destination
    }

    pub fn operand_width(&self) -> (r: OperandWidth)
        ensures
            r == self.operand_width,
    {
        self.operand_width
    }

    /// Encoded length in bytes: 2, 4 or 6.
    pub fn size(&self) -> (r: usize)
        ensures
            r == self.spec_size(),
    {
        2 + self.source.size() + self.destination.size()
    }
}

} // verus!
