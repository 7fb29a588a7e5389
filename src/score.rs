use vstd::prelude::*;

verus! {

/// The relevance threshold 0.75 as an IEEE-754 binary32 bit pattern
/// (sign 0, biased exponent 126, fraction 0x40_0000).
pub const THRESHOLD_BITS: u32 = 0x3F40_0000;

/// Does the binary32 number with bit pattern `bits` exceed 0.75?
///
/// Such a number is `(1 + fraction / 2^23) * 2^(exponent - 127)` when its
/// exponent field is neither 0 nor 255, a subnormal (below 2^-126) when it is
/// 0, and an infinity (fraction 0) or a NaN when it is 255. 0.75 is
/// `1.5 * 2^-1`, so a number exceeds it when it is positive, not a NaN, and
/// either has a larger exponent or the same exponent and a larger fraction.
pub open spec fn exceeds_three_quarters(bits: u32) -> bool {
    let sign = bits / 0x8000_0000;
    let exponent = (bits % 0x8000_0000) / 0x80_0000;
    let fraction = bits % 0x80_0000;
    &&& sign == 0
    &&& !(exponent == 255 && fraction != 0)
    &&& (exponent > 126 || (exponent == 126 && fraction > 0x40_0000))
}

/// A similarity score as the bit pattern of the binary32 number that the
/// vector index or the embedding comparison produced.
#[derive(Debug, Clone, Copy, PartialEq, Eq, Structural)]
pub struct Score {
    pub bits: u32,
}

impl Score {
    /// Strict comparison with the relevance threshold: a score of exactly
    /// 0.75 does not pass, and neither does a NaN.
    pub fn exceeds_threshold(&self) -> (r: bool)
        ensures
            r == exceeds_three_quarters(self.bits),
    {
        self.bits > THRESHOLD_BITS && self.bits <= 0x7F80_0000
    }
}

} // verus!
