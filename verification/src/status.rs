//! Enumerated fields of the wire format.

use vstd::prelude::*;

verus! {

/// Calibration state of the CO2 sensor, a two-bit field of the advertisement.
#[derive(Clone, Copy, Debug, PartialEq, Eq, Structural)]
pub enum CalibrationState {
    NotActive,
    EndRequest,
    InProgress,
    Error,
}

impl CalibrationState {
    /// The state that the raw value `b` stands for, if any.
    pub open spec fn spec_from_raw(b: u8) -> Option<CalibrationState> {
        if b == 0 {
            Some(CalibrationState::NotActive)
        } else if b == 1 {
            Some(CalibrationState::EndRequest)
        } else if b == 2 {
            Some(CalibrationState::InProgress)
        } else if b == 3 {
            Some(CalibrationState::Error)
        } else {
            None
        }
    }

    /// The raw value that stands for this state.
    pub open spec fn spec_raw(self) -> u8 {
        match self {
            CalibrationState::NotActive => 0,
            CalibrationState::EndRequest => 1,
            CalibrationState::InProgress => 2,
            CalibrationState::Error => 3,
        }
    }

    /// Decodes a raw calibration value; values above 3 are undefined.
    pub fn from_raw(b: u8) -> (state: Option<CalibrationState>)
        ensures
            state == Self::spec_from_raw(b),
            state is Some <==> b <= 3,
    {
        match b {
            0 => Some(CalibrationState::NotActive),
            1 => Some(CalibrationState::EndRequest),
            2 => Some(CalibrationState::InProgress),
            3 => Some(CalibrationState::Error),
            _ => None,
        }
    }

    /// The raw value of this state.
    pub fn raw(&self) -> (b: u8)
        ensures
            b == self.spec_raw(),
            b <= 3,
    {
        match self {
            CalibrationState::NotActive => 0,
            CalibrationState::EndRequest => 1,
            CalibrationState::InProgress => 2,
            CalibrationState::Error => 3,
        }
    }

    /// Decoding the raw value of a state gives that state back, and a
    /// defined raw value is the raw value of what it decodes to.
    pub proof fn lemma_raw_round_trip(state: CalibrationState, b: u8)
        ensures
            Self::spec_from_raw(state.spec_raw()) == Some(state),
            b <= 3 ==> Self::spec_from_raw(b).unwrap().spec_raw() == b,
    {
    }
}

/// Colour shown on the device for the current CO2 level.
#[derive(Clone, Copy, Debug, PartialEq, Eq, Structural)]
pub enum DisplayStatus {
    Green,
    Yellow,
    Red,
}

impl DisplayStatus {
    /// The status that the raw byte `b` stands for, if any.
    pub open spec fn spec_from_raw(b: u8) -> Option<DisplayStatus> {
        if b == 1 {
            Some(DisplayStatus::Green)
        } else if b == 2 {
            Some(DisplayStatus::Yellow)
        } else if b == 3 {
            Some(DisplayStatus::Red)
        } else {
            None
        }
    }

    /// The raw byte that stands for this status.
    pub open spec fn spec_raw(self) -> u8 {
        match self {
            DisplayStatus::Green => 1,
            DisplayStatus::Yellow => 2,
            DisplayStatus::Red => 3,
        }
    }

    /// Decodes a status byte; only 1, 2 and 3 are defined.
    pub fn from_raw(b: u8) -> (status: Option<DisplayStatus>)
        ensures
            status == Self::spec_from_raw(b),
            status is Some <==> 1 <= b <= 3,
    {
        match b {
            1 => Some(DisplayStatus::Green),
            2 => Some(DisplayStatus::Yellow),
            3 => Some(DisplayStatus::Red),
            _ => None,
        }
    }

    /// The raw byte of this status.
    pub fn raw(&self) -> (b: u8)
        ensures
            b == self.spec_raw(),
            1 <= b <= 3,
    {
        match self {
            DisplayStatus::Green => 1,
            DisplayStatus::Yellow => 2,
            DisplayStatus::Red => 3,
        }
    }

    /// Decoding the raw byte of a status gives that status back, and a
    /// defined raw byte is the raw byte of what it decodes to.
    pub proof fn lemma_raw_round_trip(status: DisplayStatus, b: u8)
        ensures
            Self::spec_from_raw(status.spec_raw()) == Some(status),
            1 <= b <= 3 ==> Self::spec_from_raw(b).unwrap().spec_raw() == b,
    {
    }
}

} // verus!
