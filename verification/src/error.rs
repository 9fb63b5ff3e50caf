//! Error taxonomy of the engine adapter.
//!
//! Every call into the fusion engine answers with a numeric return code. The
//! code is read as a named condition here, one variant per documented
//! cause, so that callers can react to each of them separately.

use vstd::prelude::*;
use vstd::std_specs::convert::FromSpecImpl;

verus! {

/// Return code with which the engine reports success.
pub const BSEC_OK: i32 = 0;

/// A failure or warning reported by the fusion engine.
#[derive(Clone, Copy, Debug, PartialEq, Eq, Structural)]
pub enum BsecError {
    DoStepsInvalidInput,
    DoStepsValueLimits,
    DoStepsDuplicateInput,
    DoStepsNoOutputsReturnable,
    DoStepsExcessOutputs,
    DoStepsTsIntraDiffOutOfRange,
    UpdateSubscriptionWrongDataRate,
    UpdateSubscriptionSampleRateLimits,
    UpdateSubscriptionDuplicateGate,
    UpdateSubscriptionInvalidSampleRate,
    UpdateSubscriptionGateCountExceedsArray,
    UpdateSubscriptionSampleIntervalIntegerMult,
    UpdateSubscriptionMultGaaSamplInterval,
    UpdateSubscriptionHighHeaterOnDuration,
    UpdateSubscriptionUnkownOutputGate,
    UpdateSubscriptionModeInNonUlp,
    UpdateSubscriptionSubscribedOutputGates,
    ParseSectionExceedsWorkBuffer,
    ConfigFail,
    ConfigVersionMismatch,
    ConfigFeatureMismatch,
    ConfigCrcMismatch,
    ConfigEmpty,
    ConfigInsufficientWorkBuffer,
    ConfigInvalidStringSize,
    ConfigInsufficientBuffer,
    SetInvalidChannelIdentifier,
    SetInvalidLength,
    SensorControlCallTimingViolation,
    SensorControlModeExceedsUlpTimelimit,
    SensorControlModeInsufficientWaitTime,
    /// A return code that the engine's interface does not document.
    Unknown(i32),
}

impl BsecError {
    /// The named condition that stands for an engine return code.
    ///
    /// Codes outside the documented list, the success code among them, are
    /// kept verbatim in [`BsecError::Unknown`].
    pub open spec fn of_code(return_code: i32) -> BsecError {
        if return_code == -1 {
            BsecError::DoStepsInvalidInput
        } else if return_code == -2 {
            BsecError::DoStepsValueLimits
        } else if return_code == -6 {
            BsecError::DoStepsDuplicateInput
        } else if return_code == 2 {
            BsecError::DoStepsNoOutputsReturnable
        } else if return_code == 3 {
            BsecError::DoStepsExcessOutputs
        } else if return_code == 4 {
            BsecError::DoStepsTsIntraDiffOutOfRange
        } else if return_code == -10 {
            BsecError::UpdateSubscriptionWrongDataRate
        } else if return_code == -12 {
            BsecError::UpdateSubscriptionSampleRateLimits
        } else if return_code == -13 {
            BsecError::UpdateSubscriptionDuplicateGate
        } else if return_code == -14 {
            BsecError::UpdateSubscriptionInvalidSampleRate
        } else if return_code == -15 {
            BsecError::UpdateSubscriptionGateCountExceedsArray
        } else if return_code == -16 {
            BsecError::UpdateSubscriptionSampleIntervalIntegerMult
        } else if return_code == -17 {
            BsecError::UpdateSubscriptionMultGaaSamplInterval
        } else if return_code == -18 {
            BsecError::UpdateSubscriptionHighHeaterOnDuration
        } else if return_code == 10 {
            BsecError::UpdateSubscriptionUnkownOutputGate
        } else if return_code == 11 {
            BsecError::UpdateSubscriptionModeInNonUlp
        } else if return_code == 12 {
            BsecError::UpdateSubscriptionSubscribedOutputGates
        } else if return_code == -32 {
            BsecError::ParseSectionExceedsWorkBuffer
        } else if return_code == -33 {
            BsecError::ConfigFail
        } else if return_code == -34 {
            BsecError::ConfigVersionMismatch
        } else if return_code == -35 {
            BsecError::ConfigFeatureMismatch
        } else if return_code == -36 {
            BsecError::ConfigCrcMismatch
        } else if return_code == -37 {
            BsecError::ConfigEmpty
        } else if return_code == -38 {
            BsecError::ConfigInsufficientWorkBuffer
        } else if return_code == -40 {
            BsecError::ConfigInvalidStringSize
        } else if return_code == -41 {
            BsecError::ConfigInsufficientBuffer
        } else if return_code == -100 {
            BsecError::SetInvalidChannelIdentifier
        } else if return_code == -104 {
            BsecError::SetInvalidLength
        } else if return_code == 100 {
            BsecError::SensorControlCallTimingViolation
        } else if return_code == 101 {
            BsecError::SensorControlModeExceedsUlpTimelimit
        } else if return_code == 102 {
            BsecError::SensorControlModeInsufficientWaitTime
        } else {
            BsecError::Unknown(return_code)
        }
    }

    /// No two return codes share a condition: reading a code never collapses
    /// distinct causes into one.
    pub proof fn lemma_of_code_injective(a: i32, b: i32)
        requires
            BsecError::of_code(a) == BsecError::of_code(b),
        ensures
            a == b,
    {
    }
}

impl From<i32> for BsecError {
    fn from(return_code: i32) -> (error: BsecError) {
        match return_code {
            -1 => BsecError::DoStepsInvalidInput,
            -2 => BsecError::DoStepsValueLimits,
            -6 => BsecError::DoStepsDuplicateInput,
            2 => BsecError::DoStepsNoOutputsReturnable,
            3 => BsecError::DoStepsExcessOutputs,
            4 => BsecError::DoStepsTsIntraDiffOutOfRange,
            -10 => BsecError::UpdateSubscriptionWrongDataRate,
            -12 => BsecError::UpdateSubscriptionSampleRateLimits,
            -13 => BsecError::UpdateSubscriptionDuplicateGate,
            -14 => BsecError::UpdateSubscriptionInvalidSampleRate,
            -15 => BsecError::UpdateSubscriptionGateCountExceedsArray,
            -16 => BsecError::UpdateSubscriptionSampleIntervalIntegerMult,
            -17 => BsecError::UpdateSubscriptionMultGaaSamplInterval,
            -18 => BsecError::UpdateSubscriptionHighHeaterOnDuration,
            10 => BsecError::UpdateSubscriptionUnkownOutputGate,
            11 => BsecError::UpdateSubscriptionModeInNonUlp,
            12 => BsecError::UpdateSubscriptionSubscribedOutputGates,
            -32 => BsecError::ParseSectionExceedsWorkBuffer,
            -33 => BsecError::ConfigFail,
            -34 => BsecError::ConfigVersionMismatch,
            -35 => BsecError::ConfigFeatureMismatch,
            -36 => BsecError::ConfigCrcMismatch,
            -37 => BsecError::ConfigEmpty,
            -38 => BsecError::ConfigInsufficientWorkBuffer,
            -40 => BsecError::ConfigInvalidStringSize,
            -41 => BsecError::ConfigInsufficientBuffer,
            -100 => BsecError::SetInvalidChannelIdentifier,
            -104 => BsecError::SetInvalidLength,
            100 => BsecError::SensorControlCallTimingViolation,
            101 => BsecError::SensorControlModeExceedsUlpTimelimit,
            102 => BsecError::SensorControlModeInsufficientWaitTime,
            return_code => BsecError::Unknown(return_code),
        }
    }
}

impl FromSpecImpl<i32> for BsecError {
    open spec fn obeys_from_spec() -> bool {
        true
    }

    open spec fn from_spec(return_code: i32) -> BsecError {
        BsecError::of_code(return_code)
    }
}

/// A wire value that names no member of the domain enum it was read for.
#[derive(Clone, Copy, Debug, PartialEq, Eq, Structural)]
pub enum ConversionError {
    /// Holds the IEEE 754 binary32 pattern that is no known sample rate.
    InvalidSampleRate(u32),
    InvalidPhysicalSensorId(u32),
    InvalidVirtualSensorId(u32),
    InvalidAccuracy(u8),
}

/// Anything that can go wrong in a call on the engine adapter. `E` is the
/// error type of the physical sensor's driver.
#[derive(Clone, Debug)]
pub enum Error<E> {
    /// A list or blob is longer than the wire protocol can express.
    ArgumentListTooLong,
    /// Another engine instance is alive in this process.
    BsecAlreadyInUse,
    BsecError(BsecError),
    ConversionError(ConversionError),
    BmeSensorError(E),
}

impl<E> From<BsecError> for Error<E> {
    fn from(bsec_error: BsecError) -> (error: Error<E>) {
        Error::BsecError(bsec_error)
    }
}

impl<E> FromSpecImpl<BsecError> for Error<E> {
    open spec fn obeys_from_spec() -> bool {
        true
    }

    open spec fn from_spec(bsec_error: BsecError) -> Error<E> {
        Error::BsecError(bsec_error)
    }
}

impl<E> From<ConversionError> for Error<E> {
    fn from(conversion_error: ConversionError) -> (error: Error<E>) {
        Error::ConversionError(conversion_error)
    }
}

impl<E> FromSpecImpl<ConversionError> for Error<E> {
    open spec fn obeys_from_spec() -> bool {
        true
    }

    open spec fn from_spec(conversion_error: ConversionError) -> Error<E> {
        Error::ConversionError(conversion_error)
    }
}

/// Reading of an engine return code as success or failure.
pub trait IntoResult {
    fn into_result(self) -> Result<(), BsecError>;
}

impl IntoResult for i32 {
    fn into_result(self) -> (result: Result<(), BsecError>)
        ensures
            result == engine_result(self),
    {
        if self == BSEC_OK {
            Ok(())
        } else {
            Err(BsecError::from(self))
        }
    }
}

/// Success for the success code, the matching named condition for any other.
pub open spec fn engine_result(return_code: i32) -> Result<(), BsecError> {
    if return_code == BSEC_OK {
        Ok(())
    } else {
        Err(BsecError::of_code(return_code))
    }
}

/// The adapter's answer to an engine return code: success, or the engine's
/// condition wrapped as the cause.
pub open spec fn adapter_result<E>(return_code: i32) -> Result<(), Error<E>> {
    if return_code == BSEC_OK {
        Ok(())
    } else {
        Err(Error::BsecError(BsecError::of_code(return_code)))
    }
}

/// Reads an engine return code for a caller of the adapter.
pub fn check_return_code<E>(return_code: i32) -> (result: Result<(), Error<E>>)
    ensures
        result == adapter_result::<E>(return_code),
{
    match return_code.into_result() {
        Ok(()) => Ok(()),
        Err(bsec_error) => Err(Error::from(bsec_error)),
    }
}

} // verus!
