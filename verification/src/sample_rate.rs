//! Rates at which a virtual sensor can be subscribed.
//!
//! The engine names each rate by a real number in IEEE 754 binary32. The
//! library never computes with these numbers, so it carries them as their
//! bit patterns.

use crate::error::ConversionError;
use vstd::prelude::*;

verus! {

/// Pattern of 65535.0, which removes a subscription.
pub const SAMPLE_RATE_DISABLED: u32 = 0x477f_ff00;

/// Pattern of 0.0033333, one sample in five minutes.
pub const SAMPLE_RATE_ULP: u32 = 0x3b5a_737e;

/// Pattern of 1.0, one sample a second.
pub const SAMPLE_RATE_CONTINUOUS: u32 = 0x3f80_0000;

/// Pattern of 0.33333, one sample in three seconds.
pub const SAMPLE_RATE_LP: u32 = 0x3eaa_aa3b;

/// Pattern of 0.0, a single measurement on demand in ultra-low-power mode.
pub const SAMPLE_RATE_ULP_MEASUREMENT_ON_DEMAND: u32 = 0x0000_0000;

/// How often the engine is to produce a virtual sensor's output.
#[derive(Clone, Copy, Debug, PartialEq, Eq, Hash, Structural)]
pub enum SampleRate {
    /// Removes the subscription.
    Disabled,
    /// Ultra-low power.
    Ulp,
    Continuous,
    /// Low power.
    Lp,
    /// A one-shot request, consumed by the next engine step.
    UlpMeasurementOnDemand,
}

impl SampleRate {
    /// The binary32 pattern by which the wire format names this rate.
    pub open spec fn spec_wire_bits(self) -> u32 {
        match self {
            SampleRate::Disabled => SAMPLE_RATE_DISABLED,
            SampleRate::Ulp => SAMPLE_RATE_ULP,
            SampleRate::Continuous => SAMPLE_RATE_CONTINUOUS,
            SampleRate::Lp => SAMPLE_RATE_LP,
            SampleRate::UlpMeasurementOnDemand => SAMPLE_RATE_ULP_MEASUREMENT_ON_DEMAND,
        }
    }

    /// The rate that a binary32 pattern names, if it names one.
    pub open spec fn of_wire_bits(bits: u32) -> Option<SampleRate> {
        if bits == SAMPLE_RATE_DISABLED {
            Some(SampleRate::Disabled)
        } else if bits == SAMPLE_RATE_ULP {
            Some(SampleRate::Ulp)
        } else if bits == SAMPLE_RATE_CONTINUOUS {
            Some(SampleRate::Continuous)
        } else if bits == SAMPLE_RATE_LP {
            Some(SampleRate::Lp)
        } else if bits == SAMPLE_RATE_ULP_MEASUREMENT_ON_DEMAND {
            Some(SampleRate::UlpMeasurementOnDemand)
        } else {
            None
        }
    }

    /// Rates and their patterns correspond one to one.
    pub proof fn lemma_wire_bits_bijective(rate: SampleRate, bits: u32)
        ensures
            SampleRate::of_wire_bits(rate.spec_wire_bits()) == Some(rate),
            SampleRate::of_wire_bits(bits) == Some(rate) <==> rate.spec_wire_bits() == bits,
    {
    }

    #[verifier::when_used_as_spec(spec_wire_bits)]
    pub fn wire_bits(self) -> (bits: u32)
        ensures
            bits == self.spec_wire_bits(),
    {
        match self {
            SampleRate::Disabled => SAMPLE_RATE_DISABLED,
            SampleRate::Ulp => SAMPLE_RATE_ULP,
            SampleRate::Continuous => SAMPLE_RATE_CONTINUOUS,
            SampleRate::Lp => SAMPLE_RATE_LP,
            SampleRate::UlpMeasurementOnDemand => SAMPLE_RATE_ULP_MEASUREMENT_ON_DEMAND,
        }
    }

    /// Reads a binary32 pattern as a rate. A pattern that names none is
    /// handed back as the cause of the failure.
    pub fn from_wire_bits(bits: u32) -> (result: Result<SampleRate, ConversionError>)
        ensures
            result == match SampleRate::of_wire_bits(bits) {
                Some(rate) => Ok::<SampleRate, ConversionError>(rate),
                None => Err(ConversionError::InvalidSampleRate(bits)),
            },
    {
        if bits == SAMPLE_RATE_DISABLED {
            Ok(SampleRate::Disabled)
        } else if bits == SAMPLE_RATE_ULP {
            Ok(SampleRate::Ulp)
        } else if bits == SAMPLE_RATE_CONTINUOUS {
            Ok(SampleRate::Continuous)
        } else if bits == SAMPLE_RATE_LP {
            Ok(SampleRate::Lp)
        } else if bits == SAMPLE_RATE_ULP_MEASUREMENT_ON_DEMAND {
            Ok(SampleRate::UlpMeasurementOnDemand)
        } else {
            Err(ConversionError::InvalidSampleRate(bits))
        }
    }
}

} // verus!
