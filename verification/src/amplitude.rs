use vstd::prelude::*;
use crate::error::Error;

verus! {

/// Bit pattern of the smallest accepted amplitude percentage (one hundredth
/// of a percent point below it is already out of range).
pub const MIN_AMPLITUDE_BITS: u32 = 0x3C23_D70A;
/// Bit pattern of the largest accepted amplitude percentage (one hundred).
pub const MAX_AMPLITUDE_BITS: u32 = 0x42C8_0000;

/// Whether `bits` is the single-precision bit pattern of an accepted
/// amplitude percentage. For non-negative single-precision values the
/// numeric order agrees with the unsigned order of the bit patterns, so one
/// interval of bit patterns captures exactly the accepted interval of
/// percentages; every pattern in it is a normal value, and every zero,
/// negative, infinite or not-a-number pattern falls outside it.
pub open spec fn amplitude_bits_ok(bits: u32) -> bool {
    MIN_AMPLITUDE_BITS <= bits <= MAX_AMPLITUDE_BITS
}

/// A validated amplitude percentage, kept as the bit pattern of the
/// requested single-precision value. Immutable once validated.
#[derive(Clone, Copy, PartialEq, Eq, Structural, Debug)]
pub struct Amplitude {
    bits: u32,
}

impl Amplitude {
    /// The bit pattern this amplitude was validated from.
    pub closed spec fn bits_spec(self) -> u32 {
        self.bits
    }

    /// A validated amplitude always lies in the accepted interval.
    pub open spec fn wf(self) -> bool {
        amplitude_bits_ok(self.bits_spec())
    }

    /// Validate a requested amplitude percentage, given as the bit pattern
    /// of the requested single-precision value. Accepts exactly the patterns
    /// in the accepted interval; everything else is rejected with an
    /// amplitude error carrying the offending pattern, before any audio
    /// hardware is touched.
    pub fn validate(bits: u32) -> (r: Result<Amplitude, Error>)
        ensures
            r is Ok <==> amplitude_bits_ok(bits),
            r matches Ok(a) ==> a.bits_spec() == bits && a.wf(),
            r matches Err(e) ==> e == Error::Amplitude(bits),
    {
        if MIN_AMPLITUDE_BITS <= bits && bits <= MAX_AMPLITUDE_BITS {
            Ok(Amplitude { bits })
        } else {
            Err(Error::Amplitude(bits))
        }
    }

    /// The validated bit pattern, for the output stage to turn back into a
    /// gain factor.
    pub fn bits(&self) -> (r: u32)
        ensures
            r == self.bits_spec(),
    {
        self.bits
    }
}

} // verus!
