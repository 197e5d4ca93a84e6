//! A planned MMIO register write: the verified logic produces these, and the
//! unverified hardware layer performs each volatile store in order.

use vstd::prelude::*;

verus! {

/// One 32-bit store to a device register, given as an offset from the
/// device's MMIO base address.
#[derive(Clone, Copy, PartialEq, Eq, Structural, Debug)]
pub struct RegWrite {
    pub offset: usize,
    pub value: u32,
}

impl RegWrite {
    /// Builds a planned write; the contract pins both fields.
    pub fn new(offset: usize, value: u32) -> (r: RegWrite)
        ensures
            r.offset == offset,
            r.value == value,
    {
        RegWrite { offset, value }
    }
}

} // verus!
