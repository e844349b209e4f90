//! Error taxonomy of the debugfs channel.
//!
//! Three tiers, never silently recovered: IO-layer failures carry the raw OS
//! error code of the offending file operation (as reported by the operating
//! system, or `None` when it gave no code); protocol-layer failures describe
//! malformed readback text or a device-id mismatch; domain-layer failures
//! report a raw value outside the declared state set.

use vstd::prelude::*;

verus! {

/// A general error type for the debugfs channel.
///
/// Every operation of the channel reports one of these; each operation only
/// ever produces a subset, stated in its contract.
#[derive(Debug, Clone, PartialEq, Eq)]
pub enum HardwareError {
    DevIdFileError(DevIdFileError),
    CtrlParamError(CtrlParamError),
    ConfigApplyError(ConfigApplyError),
    DevsConfigFileError(DevsConfigFileError),
    DstsConfigFileError(DstsConfigFileError),
    StateError(StateError),
}

/// IO-layer: writing the `dev_id` selector file failed.
#[derive(Debug, Clone, PartialEq, Eq, Structural)]
pub enum DevIdFileError {
    WriteFailed { error: Option<i32> },
}

/// IO-layer: writing the `ctrl_param` parameter file failed.
#[derive(Debug, Clone, PartialEq, Eq, Structural)]
pub enum CtrlParamError {
    WriteFailed { error: Option<i32> },
}

/// IO-layer: the commit read of the `devs` file failed.
#[derive(Debug, Clone, PartialEq, Eq, Structural)]
pub enum ConfigApplyError {
    ConfigApplyFailed { error: Option<i32> },
}

/// Protocol-layer: the `devs` readback text broke its grammar, or held a
/// value segment that is not a hexadecimal numeral.
#[derive(Debug, Clone, PartialEq, Eq)]
pub enum DevsConfigFileError {
    UnexpectedConfigFormat { value: Vec<u8>, dev_id: u64 },
    InvalidHexadecimalValue { value: Vec<u8> },
}

/// Domain-layer: the raw value decodes to nothing in the declared state set.
#[derive(Debug, Clone, Copy, PartialEq, Eq, Structural)]
pub enum StateError {
    NotPossibleState { value: u64 },
}

/// Protocol- and IO-layer errors of the `dsts` status readback.
#[derive(Debug, Clone, PartialEq, Eq)]
pub enum DstsConfigFileError {
    UnexpectedConfigFormat { value: Vec<u8>, dev_id: u64 },
    InvalidHexadecimalValue { value: Vec<u8> },
    StateReadFailed { error: Option<i32> },
}

} // verus!
