//! Single-precision numbers as plain data.

use vstd::prelude::*;

verus! {

/// A single-precision number, held by its IEEE 754 bit pattern.
#[derive(Debug, Clone, Copy, PartialEq, Eq, Structural)]
pub struct Real32 {
    pub bits: u32,
}

/// Bit pattern of 100.
pub const HUNDRED_BITS: u32 = 0x42c8_0000;

/// Bit pattern of negative zero.
pub const NEGATIVE_ZERO_BITS: u32 = 0x8000_0000;

impl Real32 {
    /// The number lies between 0 and 100, both included. Among the patterns
    /// without sign, which are ordered as the numbers they stand for, these
    /// are the ones up to that of 100; negative zero is the one pattern with
    /// sign that qualifies. No pattern of a NaN or an infinity does.
    pub open spec fn is_percent(self) -> bool {
        self.bits <= 0x42c8_0000 || self.bits == 0x8000_0000
    }

    /// Tells whether the number lies between 0 and 100, both included.
    pub fn in_percent_range(&self) -> (out: bool)
        ensures
            out == self.is_percent(),
    {
        self.bits <= HUNDRED_BITS || self.bits == NEGATIVE_ZERO_BITS
    }
}

} // verus!
