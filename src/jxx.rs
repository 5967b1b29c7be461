//! Conditional jumps: the offset field and its payload type.

use vstd::prelude::*;

verus! {

/// The ten-bit offset field of a jump word read as a two's-complement
/// value: bit 9 is the sign. Bits above the field are ignored.
pub open spec fn spec_jump_offset(raw: u16) -> i16 {
    let field = raw % 1024;
    if field >= 512 {
        (field - 1024) as i16
    } else {
        field as i16
    }
}

/// Sign-extends the ten-bit offset field of a jump word to 16 bits.
pub fn jxx_fix_offset(offset: u16) -> (r: i16)
    ensures
        r == spec_jump_offset(offset),
        r < 0 <==> offset & 0x200 != 0,
{
    let field = offset & 0x3ff;
    assert(field == offset % 1024 && (field >= 512 <==> offset & 0x200 != 0)) by (bit_vector)
        requires
            field == offset & 0x3ff,
    ;
    if field >= 512 {
        (field as i16) - 1024
    } else {
        field as i16
    }
}

/// The payload of a conditional jump: a signed offset in words.
#[derive(Debug, Clone, Copy, PartialEq, Eq, Structural)]
pub struct Jxx {
    pub offset: i16,
}

impl Jxx {
    pub fn new(offset: i16) -> (r: Jxx)
        ensures
            r.offset == offset,
    {
        Jxx { offset }
    }

    pub fn offset(&self) -> (r: i16)
        ensures
            r == self.offset,
    {
        self.offset
    }

    /// A jump is always one word long.
    pub fn size(&self) -> (r: usize)
        ensures
            r == 2,
    {
        2
    }
}

} // verus!
