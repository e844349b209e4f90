//! The two-state configuration shared by the simple LED keys.

use crate::debugfs::config_trait::Config;
use crate::debugfs::error::StateError;
use vstd::prelude::*;

verus! {

/// State of an LED key.
#[derive(Debug, Clone, Copy, PartialEq, Eq, Structural)]
pub enum LedState {
    Off,
    On,
}

impl Config for LedState {
    open spec fn spec_raw(self) -> u64 {
        match self {
            LedState::Off => 0,
            LedState::On => 1,
        }
    }

    open spec fn spec_decode(raw: u64) -> Option<LedState> {
        if raw == 0 {
            Some(LedState::Off)
        } else if raw == 1 {
            Some(LedState::On)
        } else {
            None
        }
    }

    proof fn lemma_decode_raw(self) {
    }

    proof fn lemma_decode_sound(raw: u64) {
    }

    fn raw(&self) -> u64 {
        match self {
            LedState::Off => 0,
            LedState::On => 1,
        }
    }

    fn decode(raw: u64) -> Result<LedState, StateError> {
        if raw == 0 {
            Ok(LedState::Off)
        } else if raw == 1 {
            Ok(LedState::On)
        } else {
            Err(StateError::NotPossibleState { value: raw })
        }
    }
}

} // verus!
