//! The chassis fan mode, as the debugfs channel controls it.

use crate::debugfs::config::Hardware;
use crate::debugfs::config_trait::Config;
use crate::debugfs::error::StateError;
use vstd::prelude::*;

verus! {

pub const DEV_ID: u64 = 0x110019;

/// The fan-mode channel, bound to its `dev_id`, mask not yet discovered.
pub fn get() -> (h: Hardware<FanMode>)
    ensures
        h.spec_dev_id() == DEV_ID,
        h.spec_mask() is None,
{
    Hardware::new(DEV_ID)
}

/// The declared fan modes of the debugfs channel.
#[derive(Debug, Clone, Copy, PartialEq, Eq, Structural)]
pub enum FanMode {
    Standard,
    Whispher,
    Performace,
    FullSpeed,
}

impl Config for FanMode {
    open spec fn spec_raw(self) -> u64 {
        match self {
            FanMode::Standard => 0,
            FanMode::Whispher => 1,
            FanMode::Performace => 2,
            FanMode::FullSpeed => 3,
        }
    }

    open spec fn spec_decode(raw: u64) -> Option<FanMode> {
        if raw == 0 {
            Some(FanMode::Standard)
        } else if raw == 1 {
            Some(FanMode::Whispher)
        } else if raw == 2 {
            Some(FanMode::Performace)
        } else if raw == 3 {
            Some(FanMode::FullSpeed)
        } else {
            None
        }
    }

    proof fn lemma_decode_raw(self) {
    }

    proof fn lemma_decode_sound(raw: u64) {
    }

    fn raw(&self) -> u64 {
        match self {
            FanMode::Standard => 0,
            FanMode::Whispher => 1,
            FanMode::Performace => 2,
            FanMode::FullSpeed => 3,
        }
    }

    fn decode(raw: u64) -> Result<FanMode, StateError> {
        if raw == 0 {
            Ok(FanMode::Standard)
        } else if raw == 1 {
            Ok(FanMode::Whispher)
        } else if raw == 2 {
            Ok(FanMode::Performace)
        } else if raw == 3 {
            Ok(FanMode::FullSpeed)
        } else {
            Err(StateError::NotPossibleState { value: raw })
        }
    }
}

} // verus!
