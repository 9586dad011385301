//! The linear volume level of the audio output.

use vstd::prelude::*;

verus! {

/// The bit pattern of the double `1.0`.
pub const FULL_BITS: u64 = 0x3FF0_0000_0000_0000;

/// The bit pattern of the double `-0.0`.
pub const NEGATIVE_ZERO_BITS: u64 = 0x8000_0000_0000_0000;

/// The bit pattern of the double `0.9`, the level a pipeline starts with.
pub const INITIAL_BITS: u64 = 0x3FEC_CCCC_CCCC_CCCD;

/// Whether `bits` is the IEEE-754 pattern of a double between 0 and 1.
///
/// With the sign bit clear, doubles are ordered as their bit patterns are, so
/// the patterns up to that of `1.0` are exactly the doubles from `+0.0` to
/// `1.0`: infinities and NaNs lie above. `-0.0` is zero too.
pub open spec fn is_unit_level(bits: u64) -> bool {
    bits <= FULL_BITS || bits == NEGATIVE_ZERO_BITS
}

/// A volume multiplier between 0 (silent) and 1 (full), on a linear scale.
///
/// The level is kept as the bit pattern of a double, which carries it
/// unchanged from the caller to the pipeline.
#[derive(Clone, Copy, Debug, PartialEq, Eq, Structural)]
pub struct Volume {
    bits: u64,
}

impl Volume {
    #[verifier::type_invariant]
    spec fn in_range(self) -> bool {
        is_unit_level(self.bits)
    }

    /// The bit pattern of the level.
    pub closed spec fn bits_of(self) -> u64 {
        self.bits
    }

    /// The level with the given bit pattern, if that is a double between 0
    /// and 1.
    pub fn from_bits(bits: u64) -> (v: Option<Volume>)
        ensures
            v.is_some() == is_unit_level(bits),
            v matches Some(level) ==> level.bits_of() == bits,
    {
        if bits <= FULL_BITS || bits == NEGATIVE_ZERO_BITS {
            Some(Volume { bits })
        } else {
            None
        }
    }

    /// The level a pipeline starts with: 0.9.
    pub closed spec fn initial_level() -> Volume {
        Volume { bits: INITIAL_BITS }
    }

    /// The level a pipeline starts with: 0.9.
    pub fn initial() -> (v: Volume)
        ensures
            v == Volume::initial_level(),
            v.bits_of() == INITIAL_BITS,
    {
        Volume { bits: INITIAL_BITS }
    }

    /// The bit pattern of the level, which is that of a double between 0 and 1.
    pub fn to_bits(&self) -> (bits: u64)
        ensures
            bits == self.bits_of(),
            is_unit_level(bits),
    {
        proof {
            use_type_invariant(self);
        }
        self.bits
    }
}

} // verus!
