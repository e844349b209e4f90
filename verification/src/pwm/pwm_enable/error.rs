//! Error taxonomy of the PWM channel. IO-layer variants carry the raw OS
//! error code of the offending file operation (or `None` when the operating
//! system gave no code).

use crate::fan::configurations::AsusNbWmiFanMode;
use crate::fan::configurations::AsusNbWmiFanModeError;
use vstd::prelude::*;

verus! {

/// Failures of locating and opening a `pwm<N>_enable` control file.
///
/// `UnsupportedHardware` means no hwmon index backs the pwm id at all —
/// distinct from an IO failure on a file that does exist.
#[derive(Debug, Clone, Copy, PartialEq, Eq, Structural)]
pub enum PwmEnableError {
    UnsupportedHardware { pwm_id: u8 },
    UnableToAccessHardware { pwm_id: u8, error: Option<i32> },
    IOError { error: Option<i32> },
}

/// Failures of reading the sibling `fan<N>_input` (RPM) file; a non-numeric
/// remainder is a domain-layer decode failure distinct from the IO failures.
#[derive(Debug, Clone, PartialEq, Eq)]
pub enum InputReadError {
    NonNumericInputValue { value: Vec<u8> },
    InputIncompatible { error: Option<i32> },
    IOReadError { error: Option<i32> },
}

/// Failures of reading the fan mode byte.
#[derive(Debug, Clone, Copy, PartialEq, Eq, Structural)]
pub enum FanModeReadError {
    AsusNbWmiFanModeError { error: AsusNbWmiFanModeError },
    IOReadError { error: Option<i32> },
}

/// Failures of reading the sibling `fan<N>_label` file.
#[derive(Debug, Clone, Copy, PartialEq, Eq, Structural)]
pub enum LabelReadError {
    LabelIncompatible { error: Option<i32> },
    IOReadError { error: Option<i32> },
}

/// Failures of a fan-mode write, classified by the OS error code: code 22
/// (invalid argument) means this hardware rejects the declared mode, code 5
/// (I/O error) means firmware demands AC power for it, anything else is
/// surfaced unclassified.
#[derive(Debug, Clone, Copy, PartialEq, Eq, Structural)]
pub enum FanModeSetError {
    IllegalFanModeValue { value: AsusNbWmiFanMode },
    UnknownError { error: Option<i32> },
    AcPowerRequired { error: Option<i32> },
}

} // verus!
