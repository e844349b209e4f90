//! The keyboard backlight and its driver-specific variant codec.
//!
//! Unlike the plain enumerations, the backlight does not write its logical
//! value bare: logical value 0 (off) encodes as raw 0, and every other
//! declared logical value `v` encodes as `0x80 | (0x7F & v)` — the driver's
//! high-bit convention, reproduced exactly on both encode and decode.

use crate::debugfs::config_trait::Config;
use crate::debugfs::error::StateError;
use vstd::prelude::*;

verus! {

pub const DEV_ID: u64 = 0x00050021;

/// The driver's high-bit convention: the off value is written bare, every
/// other logical value with the high bit set over its low seven bits.
pub open spec fn kbd_raw(v: u64) -> u64 {
    if v == 0 {
        0
    } else {
        0x80u64 | (0x7fu64 & v)
    }
}

/// The declared keyboard-backlight levels, by logical value 0 to 3.
#[derive(Debug, Clone, Copy, PartialEq, Eq, Structural)]
pub enum KbdBrightness {
    Off,
    Low,
    Medium,
    High,
}

impl KbdBrightness {
    /// Logical value of the level, before the high-bit convention applies.
    pub open spec fn spec_logical(self) -> u64 {
        match self {
            KbdBrightness::Off => 0,
            KbdBrightness::Low => 1,
            KbdBrightness::Medium => 2,
            KbdBrightness::High => 3,
        }
    }

    pub fn logical(&self) -> (r: u64)
        ensures
            r == self.spec_logical(),
    {
        match self {
            KbdBrightness::Off => 0,
            KbdBrightness::Low => 1,
            KbdBrightness::Medium => 2,
            KbdBrightness::High => 3,
        }
    }
}

proof fn lemma_kbd_raw_values()
    ensures
        kbd_raw(1) == 0x81,
        kbd_raw(2) == 0x82,
        kbd_raw(3) == 0x83,
{
    assert(0x80u64 | (0x7fu64 & 1u64) == 0x81u64) by (bit_vector);
    assert(0x80u64 | (0x7fu64 & 2u64) == 0x82u64) by (bit_vector);
    assert(0x80u64 | (0x7fu64 & 3u64) == 0x83u64) by (bit_vector);
}

impl Config for KbdBrightness {
    open spec fn spec_raw(self) -> u64 {
        kbd_raw(self.spec_logical())
    }

    open spec fn spec_decode(raw: u64) -> Option<KbdBrightness> {
        if raw == 0 {
            Some(KbdBrightness::Off)
        } else if raw == 0x81 {
            Some(KbdBrightness::Low)
        } else if raw == 0x82 {
            Some(KbdBrightness::Medium)
        } else if raw == 0x83 {
            Some(KbdBrightness::High)
        } else {
            None
        }
    }

    proof fn lemma_decode_raw(self) {
        lemma_kbd_raw_values();
    }

    proof fn lemma_decode_sound(raw: u64) {
        lemma_kbd_raw_values();
    }

    fn raw(&self) -> u64 {
        proof {
            lemma_kbd_raw_values();
        }
        match self {
            KbdBrightness::Off => 0,
            KbdBrightness::Low => 0x81,
            KbdBrightness::Medium => 0x82,
            KbdBrightness::High => 0x83,
        }
    }

    fn decode(raw: u64) -> Result<KbdBrightness, StateError> {
        if raw == 0 {
            Ok(KbdBrightness::Off)
        } else if raw == 0x81 {
            Ok(KbdBrightness::Low)
        } else if raw == 0x82 {
            Ok(KbdBrightness::Medium)
        } else if raw == 0x83 {
            Ok(KbdBrightness::High)
        } else {
            Err(StateError::NotPossibleState { value: raw })
        }
    }
}

/// The backlight codec follows the high-bit convention for every declared
/// level: its raw code is `kbd_raw` of its logical value, and that raw code
/// decodes back to the same level.
pub proof fn lemma_kbd_high_bit(v: KbdBrightness)
    ensures
        v.spec_raw() == kbd_raw(v.spec_logical()),
        KbdBrightness::spec_decode(v.spec_raw()) == Some(v),
{
    v.lemma_decode_raw();
}

} // verus!
