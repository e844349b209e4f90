//! The fan modes of the hwmon PWM control file and their byte codec.

use vstd::prelude::*;

verus! {

/// Rejections of the fan-mode byte codec: a byte outside the ASCII digits, or
/// a digit naming no declared mode.
#[derive(Debug, Clone, Copy, PartialEq, Eq, Structural)]
pub enum AsusNbWmiFanModeError {
    InvalidFanMode { value: u8 },
    NonNumericByte { value: u8 },
}

/// Fan modes exactly as the `pwm<N>_enable` control file encodes them: the
/// single ASCII digit bytes `'0'`, `'1'`, `'2'` — a byte-for-byte protocol
/// detail, not an internal choice.
#[derive(Debug, Clone, Copy, PartialEq, Eq, Structural)]
pub enum AsusNbWmiFanMode {
    FullSpeed,
    Manual,
    Auto,
}

impl AsusNbWmiFanMode {
    /// The byte written at offset 0 of the control file for this mode.
    pub open spec fn spec_byte(self) -> u8 {
        match self {
            AsusNbWmiFanMode::FullSpeed => 0x30,
            AsusNbWmiFanMode::Manual => 0x31,
            AsusNbWmiFanMode::Auto => 0x32,
        }
    }

    /// What a control-file byte decodes to: the three declared digits name
    /// their modes, any other ASCII digit is an undeclared mode, and any
    /// other byte is not numeric at all.
    pub open spec fn spec_decode(value: u8) -> Result<AsusNbWmiFanMode, AsusNbWmiFanModeError> {
        if value < 0x30 || value > 0x39 {
            Err(AsusNbWmiFanModeError::NonNumericByte { value })
        } else if value == 0x30 {
            Ok(AsusNbWmiFanMode::FullSpeed)
        } else if value == 0x31 {
            Ok(AsusNbWmiFanMode::Manual)
        } else if value == 0x32 {
            Ok(AsusNbWmiFanMode::Auto)
        } else {
            Err(AsusNbWmiFanModeError::InvalidFanMode { value })
        }
    }

    pub fn as_byte(&self) -> (b: u8)
        ensures
            b == self.spec_byte(),
    {
        match self {
            AsusNbWmiFanMode::FullSpeed => 0x30,
            AsusNbWmiFanMode::Manual => 0x31,
            AsusNbWmiFanMode::Auto => 0x32,
        }
    }

    /// Decode one byte read from the control file.
    pub fn try_from(value: u8) -> (r: Result<AsusNbWmiFanMode, AsusNbWmiFanModeError>)
        ensures
            r == Self::spec_decode(value),
    {
        if value < 0x30 || value > 0x39 {
            Err(AsusNbWmiFanModeError::NonNumericByte { value })
        } else if value == 0x30 {
            Ok(AsusNbWmiFanMode::FullSpeed)
        } else if value == 0x31 {
            Ok(AsusNbWmiFanMode::Manual)
        } else if value == 0x32 {
            Ok(AsusNbWmiFanMode::Auto)
        } else {
            Err(AsusNbWmiFanModeError::InvalidFanMode { value })
        }
    }
}

/// Round trip: every declared mode decodes back from its own byte.
pub proof fn lemma_fan_mode_round_trip(m: AsusNbWmiFanMode)
    ensures
        AsusNbWmiFanMode::spec_decode(m.spec_byte()) == Ok::<
            AsusNbWmiFanMode,
            AsusNbWmiFanModeError,
        >(m),
{
}

/// Decoding succeeds only on the exact byte of the mode it returns.
pub proof fn lemma_fan_mode_decode_sound(value: u8)
    ensures
        AsusNbWmiFanMode::spec_decode(value) matches Ok(m) ==> m.spec_byte() == value,
{
}

} // verus!
