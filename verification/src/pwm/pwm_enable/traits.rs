//! Capability surfaces of a PWM handle.
//!
//! `ReadConfig` is the read surface every handle has; `WriteConfig` is the
//! mutating surface and only the read-write handle implements it, so a
//! read-only handle exposes no fan-mode-set operation at all — the gating is
//! in the types, not a run-time check.
//!
//! The handle decides; the caller does the file work. Read operations take
//! the bytes the caller fetched, and write operations yield the byte to write
//! and classify the OS error code if the write failed.

use crate::fan::configurations::AsusNbWmiFanMode;
use crate::pwm::pwm_enable::error::FanModeReadError;
use crate::pwm::pwm_enable::error::FanModeSetError;
use crate::pwm::pwm_enable::error::InputReadError;
use crate::text::dec_value;
use crate::text::is_dec_u16;
use vstd::prelude::*;

verus! {

/// End of a file's content once the single trailing newline, if any, is
/// dropped.
pub open spec fn content_end(s: Seq<u8>) -> int {
    if s.len() > 0 && s.last() == 0x0a {
        s.len() - 1
    } else {
        s.len() as int
    }
}

/// How a failed fan-mode write is classified, by the OS error code the write
/// reported.
pub open spec fn spec_set_fan_mode_error(
    mode: AsusNbWmiFanMode,
    raw_os_error: Option<i32>,
) -> FanModeSetError {
    match raw_os_error {
        None => FanModeSetError::UnknownError { error: None },
        Some(code) => {
            if code == 22 {
                FanModeSetError::IllegalFanModeValue { value: mode }
            } else if code == 5 {
                FanModeSetError::AcPowerRequired { error: Some(code) }
            } else {
                FanModeSetError::UnknownError { error: Some(code) }
            }
        },
    }
}

/// Read surface of a PWM handle: available on every capability.
pub trait ReadConfig {
    /// Decode the single byte read at offset 0 of the control file into the
    /// current fan mode.
    fn get_fan_mode(&self, byte: u8) -> (r: Result<AsusNbWmiFanMode, FanModeReadError>)
        ensures
            match r {
                Ok(m) => AsusNbWmiFanMode::spec_decode(byte) == Ok::<
                    AsusNbWmiFanMode,
                    crate::fan::configurations::AsusNbWmiFanModeError,
                >(m),
                Err(e) => e matches FanModeReadError::AsusNbWmiFanModeError { error }
                    && AsusNbWmiFanMode::spec_decode(byte) == Err::<
                    AsusNbWmiFanMode,
                    crate::fan::configurations::AsusNbWmiFanModeError,
                >(error),
            },
    ;

    /// The label file's text (for example `cpu_fan`), with its single
    /// trailing newline trimmed.
    fn get_label(&self, contents: &[u8]) -> (r: Vec<u8>)
        ensures
            r@ == contents@.subrange(0, content_end(contents@)),
    ;

    /// The fan's RPM: the input file's text, trailing newline trimmed, read
    /// as an unsigned 16-bit decimal numeral. Any other remainder is a decode
    /// failure carrying that remainder.
    fn get_input(&self, contents: &[u8]) -> (r: Result<u16, InputReadError>)
        ensures
            ({
                let t = contents@;
                let hi = content_end(t);
                match r {
                    Ok(v) => is_dec_u16(t, 0, hi) && v == dec_value(t, 0, hi),
                    Err(e) => {
                        &&& !is_dec_u16(t, 0, hi)
                        &&& e matches InputReadError::NonNumericInputValue { value } && value@
                            == t.subrange(0, hi)
                    },
                }
            }),
    ;
}

/// Write surface of a PWM handle: only the read-write capability has it.
pub trait WriteConfig {
    /// The byte to write at offset 0 of the control file to set `mode`.
    fn set_fan_mode(&self, mode: AsusNbWmiFanMode) -> (b: u8)
        ensures
            b == mode.spec_byte(),
    ;

    /// Classify a failed fan-mode write by the OS error code it reported.
    fn set_fan_mode_error(&self, mode: AsusNbWmiFanMode, raw_os_error: Option<i32>) -> (e:
        FanModeSetError)
        ensures
            e == spec_set_fan_mode_error(mode, raw_os_error),
    ;
}

/// Capability marker of a PWM handle: whether handles in this state may be
/// opened with, and use, write access.
pub trait PwmEnableState {
    spec fn spec_write_permission() -> bool;

    fn write_permission() -> (b: bool)
        ensures
            b == Self::spec_write_permission(),
    ;
}

} // verus!
