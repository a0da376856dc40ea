//! Single-precision numbers, held by their bit patterns.

use vstd::prelude::*;

verus! {

/// An IEEE 754 single-precision number, given by its bit pattern.
#[derive(Debug, Clone, Copy, PartialEq, Eq, Structural)]
pub struct Real32 {
    pub bits: u32,
}

/// Whether a bit pattern stands for no number.
pub open spec fn nan_bits(bits: u32) -> bool {
    0x7f80_0001 <= bits <= 0x7fff_ffff || 0xff80_0001 <= bits
}

/// The bit patterns of the numbers `x` for which `|x - 1|` exceeds the machine epsilon, as single
/// precision computes it: all but the one itself, its upper neighbour, its two lower neighbours,
/// and the patterns that stand for no number.
pub open spec fn off_unit(bits: u32) -> bool {
    !(0x3f7f_fffe <= bits <= 0x3f80_0001) && !nan_bits(bits)
}

impl Real32 {
    /// The number with the given bit pattern.
    pub fn from_bits(bits: u32) -> (r: Real32)
        ensures
            r.bits == bits,
    {
        Real32 { bits }
    }

    /// Whether `|x - 1|` exceeds the machine epsilon.
    pub fn differs_from_one(self) -> (r: bool)
        ensures
            r == off_unit(self.bits),
    {
        let nan = (0x7f80_0001 <= self.bits && self.bits <= 0x7fff_ffff) || 0xff80_0001
            <= self.bits;
        !(0x3f7f_fffe <= self.bits && self.bits <= 0x3f80_0001) && !nan
    }
}

/// A number is the one of its bit pattern.
pub proof fn lemma_from_bits(bits: u32, r: Real32)
    requires
        call_ensures(Real32::from_bits, (bits,), r),
    ensures
        r.bits == bits,
{
}

} // verus!
