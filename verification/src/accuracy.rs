//! Reliability grade of an engine output.

use crate::error::ConversionError;
use core::cmp::Ordering;
use vstd::prelude::*;
use vstd::std_specs::cmp::PartialOrdSpecImpl;
use vstd::std_specs::convert::FromSpecImpl;
use vstd::std_specs::convert::TryFromSpecImpl;

verus! {

/// Reliability grade that the fusion engine attaches to each output, from
/// worst to best.
#[derive(Clone, Copy, Debug, PartialEq, Eq, Ord, Hash, Structural)]
pub enum Accuracy {
    Unreliable,
    LowAccuracy,
    MediumAccuracy,
    HighAccuracy,
}

impl Accuracy {
    /// The code by which the wire format names this grade.
    pub open spec fn code(self) -> u8 {
        match self {
            Accuracy::Unreliable => 0,
            Accuracy::LowAccuracy => 1,
            Accuracy::MediumAccuracy => 2,
            Accuracy::HighAccuracy => 3,
        }
    }

    /// The grade that a wire code names, if it names one.
    pub open spec fn of_code(code: u8) -> Option<Accuracy> {
        if code == 0 {
            Some(Accuracy::Unreliable)
        } else if code == 1 {
            Some(Accuracy::LowAccuracy)
        } else if code == 2 {
            Some(Accuracy::MediumAccuracy)
        } else if code == 3 {
            Some(Accuracy::HighAccuracy)
        } else {
            None
        }
    }

    /// Grades and the codes zero to three correspond one to one.
    pub proof fn lemma_code_bijective(accuracy: Accuracy, code: u8)
        ensures
            Accuracy::of_code(accuracy.code()) == Some(accuracy),
            Accuracy::of_code(code) == Some(accuracy) <==> accuracy.code() == code,
            Accuracy::of_code(code) is None <==> code > 3,
    {
    }
}

impl From<Accuracy> for u8 {
    fn from(accuracy: Accuracy) -> (code: u8) {
        match accuracy {
            Accuracy::Unreliable => 0,
            Accuracy::LowAccuracy => 1,
            Accuracy::MediumAccuracy => 2,
            Accuracy::HighAccuracy => 3,
        }
    }
}

impl FromSpecImpl<Accuracy> for u8 {
    open spec fn obeys_from_spec() -> bool {
        true
    }

    open spec fn from_spec(accuracy: Accuracy) -> u8 {
        accuracy.code()
    }
}

impl TryFrom<u8> for Accuracy {
    type Error = ConversionError;

    fn try_from(accuracy: u8) -> (result: Result<Accuracy, ConversionError>) {
        match accuracy {
            0 => Ok(Accuracy::Unreliable),
            1 => Ok(Accuracy::LowAccuracy),
            2 => Ok(Accuracy::MediumAccuracy),
            3 => Ok(Accuracy::HighAccuracy),
            _ => Err(ConversionError::InvalidAccuracy(accuracy)),
        }
    }
}

impl TryFromSpecImpl<u8> for Accuracy {
    open spec fn obeys_try_from_spec() -> bool {
        true
    }

    open spec fn try_from_spec(accuracy: u8) -> Result<Accuracy, ConversionError> {
        match Accuracy::of_code(accuracy) {
            Some(grade) => Ok(grade),
            None => Err(ConversionError::InvalidAccuracy(accuracy)),
        }
    }
}

impl PartialOrd for Accuracy {
    fn partial_cmp(&self, other: &Accuracy) -> (order: Option<Ordering>) {
        let left: u8 = u8::from(*self);
        let right: u8 = u8::from(*other);
        if left < right {
            Some(Ordering::Less)
        } else if left == right {
            Some(Ordering::Equal)
        } else {
            Some(Ordering::Greater)
        }
    }
}

impl PartialOrdSpecImpl for Accuracy {
    open spec fn obeys_partial_cmp_spec() -> bool {
        true
    }

    open spec fn partial_cmp_spec(&self, other: &Accuracy) -> Option<Ordering> {
        if self.code() < other.code() {
            Some(Ordering::Less)
        } else if self.code() == other.code() {
            Some(Ordering::Equal)
        } else {
            Some(Ordering::Greater)
        }
    }
}

} // verus!
