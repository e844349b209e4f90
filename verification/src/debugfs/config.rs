//! The debugfs channel proper: a `Hardware` instance bound to one `dev_id`,
//! with the write-plan builders, the readback parsers, and the XOR-mask
//! discovery that makes the status readback decodable.
//!
//! The channel itself never touches a file. A write is returned as an
//! [`ApplyPlan`] holding the exact texts for the caller to write (selector
//! first, then parameter, then a read of the commit file to make the write
//! take effect); a read takes the text the caller fetched. Everything the
//! channel decides — grammar, id checks, mask handling, decoding — is here
//! and verified.

use crate::debugfs::config_trait::Config;
use crate::debugfs::error::DevsConfigFileError;
use crate::debugfs::error::DstsConfigFileError;
use crate::debugfs::error::HardwareError;
use crate::debugfs::error::StateError;
use crate::debugfs::readback::devs_id_value;
use crate::debugfs::readback::devs_value;
use crate::debugfs::readback::devs_value_ok;
use crate::debugfs::readback::devs_value_region;
use crate::debugfs::readback::devs_wf;
use crate::debugfs::readback::dsts_has_eq;
use crate::debugfs::readback::dsts_id_value;
use crate::debugfs::readback::dsts_value;
use crate::debugfs::readback::dsts_value_ok;
use crate::debugfs::readback::dsts_value_region;
use crate::text::copy_range;
use crate::text::dec_of;
use crate::text::find_byte;
use crate::text::parse_hex_u64;
use crate::text::rfind_byte;
use crate::text::skip_0x;
use crate::text::trim_end_range;
use crate::text::trim_range;
use crate::text::u64_to_dec;
use std::marker::PhantomData;
use vstd::prelude::*;

verus! {

/// One write transaction against the debugfs files, as the exact texts to
/// write: `dev_id_text` goes to the selector file, then `param_text` to the
/// parameter file, and then the commit file must be read once to make the
/// parameter take effect.
pub struct ApplyPlan {
    pub dev_id_text: Vec<u8>,
    pub param_text: Vec<u8>,
}

impl ApplyPlan {
    /// The plan selects device `dev_id` and writes the raw value `raw`.
    pub open spec fn is_for(self, dev_id: u64, raw: u64) -> bool {
        self.dev_id_text@ == dec_of(dev_id as nat) && self.param_text@ == dec_of(raw as nat)
    }
}

/// A channel to one control-register family, bound to its `dev_id`, holding
/// the XOR mask once discovered.
///
/// The channel has two observable modes: mask unknown (initial) and mask
/// known. The one transition is [`Hardware::learn_mask`]; nothing transitions
/// back. The instance is single-owner state: sharing it across threads during
/// discovery is the caller's responsibility to exclude.
#[derive(Debug)]
pub struct Hardware<State: Config> {
    dev_id: u64,
    states_type: PhantomData<State>,
    safe_read_mask: Option<u64>,
}

impl<State: Config> Hardware<State> {
    /// The device id this channel was constructed with.
    pub closed spec fn spec_dev_id(self) -> u64 {
        self.dev_id
    }

    /// The discovered read mask, if any.
    pub closed spec fn spec_mask(self) -> Option<u64> {
        self.safe_read_mask
    }

    /// Create a new channel for the given `dev_id`, with no mask discovered
    /// yet. Opens nothing.
    pub fn new(dev_id: u64) -> (h: Self)
        ensures
            h.spec_dev_id() == dev_id,
            h.spec_mask() is None,
    {
        Hardware { dev_id, states_type: PhantomData, safe_read_mask: None }
    }

    /// The device id this channel targets.
    pub fn dev_id(&self) -> (r: u64)
        ensures
            r == self.spec_dev_id(),
    {
        self.dev_id
    }

    /// The decimal text that selects this channel's device: what must be
    /// written to the selector file before every other file access.
    pub fn dev_id_text(&self) -> (t: Vec<u8>)
        ensures
            t@ == dec_of(self.spec_dev_id() as nat),
    {
        u64_to_dec(self.dev_id)
    }

    /// Whether the read mask has been discovered on this channel.
    pub fn mask_known(&self) -> (b: bool)
        ensures
            b == (self.spec_mask() is Some),
    {
        match self.safe_read_mask {
            Some(_) => true,
            None => false,
        }
    }

    /// The write transaction that applies the given declared state.
    pub fn apply(&self, ctrl_param: State) -> (plan: ApplyPlan)
        ensures
            plan.is_for(self.spec_dev_id(), ctrl_param.spec_raw()),
    {
        self.apply_raw(ctrl_param)
    }

    /// The write transaction for any codec-compatible value, bypassing the
    /// declared state set of `State`.
    ///
    /// A deliberately discouraged escape hatch: nothing checks that the value
    /// is meaningful to the hardware. Prefer [`Hardware::apply`].
    pub fn apply_any<C: Config>(&self, ctrl_param: C) -> (plan: ApplyPlan)
        ensures
            plan.is_for(self.spec_dev_id(), ctrl_param.spec_raw()),
    {
        self.apply_raw(ctrl_param)
    }

    fn apply_raw<C: Config>(&self, ctrl_param: C) -> (plan: ApplyPlan)
        ensures
            plan.is_for(self.spec_dev_id(), ctrl_param.spec_raw()),
    {
        ApplyPlan { dev_id_text: u64_to_dec(self.dev_id), param_text: ctrl_param.to_config() }
    }

    /// Record the mask observed after forcing the register to zero, and
    /// return the write transaction that restores the original state.
    ///
    /// `current_raw_state` is the status readback taken before the
    /// perturbation and `masked_zero` the one taken after it; since the
    /// register then held zero, `masked_zero` is the mask itself. This is the
    /// channel's one mode transition: afterwards the mask is known and stays.
    pub fn learn_mask(&mut self, current_raw_state: u64, masked_zero: u64) -> (restore: ApplyPlan)
        requires
            old(self).spec_mask() is None,
        ensures
            final(self).spec_dev_id() == old(self).spec_dev_id(),
            final(self).spec_mask() == Some(masked_zero),
            restore.is_for(old(self).spec_dev_id(), current_raw_state ^ masked_zero),
    {
        self.safe_read_mask = Some(masked_zero);
        let restore_raw: u64 = current_raw_state ^ masked_zero;
        self.apply_any(restore_raw)
    }

    /// Decode a status readback into the declared state, through the
    /// discovered mask: the state is the decoding of
    /// `current_raw_state XOR mask`, and a value outside the declared set is
    /// a domain error.
    pub fn read(&self, current_raw_state: u64) -> (r: Result<State, HardwareError>)
        requires
            self.spec_mask() is Some,
        ensures
            self.spec_mask() matches Some(m) ==> ({
                let unmasked = current_raw_state ^ m;
                match r {
                    Ok(v) => State::spec_decode(unmasked) == Some(v),
                    Err(e) => {
                        &&& State::spec_decode(unmasked) is None
                        &&& e == HardwareError::StateError(
                            StateError::NotPossibleState { value: unmasked },
                        )
                    },
                }
            }),
    {
        let mask = self.safe_read_mask.unwrap();
        let unmasked: u64 = current_raw_state ^ mask;
        match State::decode(unmasked) {
            Ok(v) => Ok(v),
            Err(e) => Err(HardwareError::StateError(e)),
        }
    }

    /// Parse the status-file text and yield the masked raw value it carries.
    ///
    /// The grammar is `DSTS(<hex id>) = <hex value>`, `0x` optional on both
    /// numerals. A present id that differs from this channel's is a protocol
    /// error; an unreadable or absent id is tolerated. A value segment that
    /// is not hexadecimal is a protocol error carrying that segment.
    pub fn read_dsts(&self, text: &[u8]) -> (r: Result<u64, HardwareError>)
        ensures
            ({
                let t = text@;
                match r {
                    Ok(v) => {
                        &&& dsts_has_eq(t)
                        &&& (dsts_id_value(t) matches Some(id) ==> id == self.spec_dev_id())
                        &&& dsts_value_ok(t)
                        &&& v == dsts_value(t)
                    },
                    Err(e) => match e {
                        HardwareError::DstsConfigFileError(de) => match de {
                            DstsConfigFileError::UnexpectedConfigFormat { value, dev_id } => {
                                &&& value@ == t
                                &&& dev_id == self.spec_dev_id()
                                &&& (!dsts_has_eq(t) || ({
                                    &&& dsts_id_value(t) matches Some(id) && id
                                        != self.spec_dev_id()
                                }))
                            },
                            DstsConfigFileError::InvalidHexadecimalValue { value } => {
                                &&& dsts_has_eq(t)
                                &&& (dsts_id_value(t) matches Some(id) ==> id
                                    == self.spec_dev_id())
                                &&& !dsts_value_ok(t)
                                &&& value@ == t.subrange(
                                    dsts_value_region(t).0,
                                    dsts_value_region(t).1,
                                )
                            },
                            DstsConfigFileError::StateReadFailed { .. } => false,
                        },
                        _ => false,
                    },
                }
            }),
    {
        let len = text.len();
        let eq = find_byte(text, 0, len, 0x3d);
        if eq == len {
            return Err(
                HardwareError::DstsConfigFileError(
                    DstsConfigFileError::UnexpectedConfigFormat {
                        value: copy_range(text, 0, len),
                        dev_id: self.dev_id,
                    },
                ),
            );
        }
        let close = find_byte(text, 0, eq, 0x29);
        let mut inferred: Option<u64> = None;
        if close < eq {
            let open = find_byte(text, 0, close, 0x28);
            if open < close {
                let r = trim_range(text, open + 1, close);
                let a = skip_0x(text, r.0, r.1);
                inferred = parse_hex_u64(text, a, r.1);
            }
        }
        proof {
            assert(inferred == dsts_id_value(text@));
        }
        if let Some(id) = inferred {
            if id != self.dev_id {
                return Err(
                    HardwareError::DstsConfigFileError(
                        DstsConfigFileError::UnexpectedConfigFormat {
                            value: copy_range(text, 0, len),
                            dev_id: self.dev_id,
                        },
                    ),
                );
            }
        }
        let v = trim_range(text, eq + 1, len);
        let va = skip_0x(text, v.0, v.1);
        match parse_hex_u64(text, va, v.1) {
            Some(value) => Ok(value),
            None => Err(
                HardwareError::DstsConfigFileError(
                    DstsConfigFileError::InvalidHexadecimalValue {
                        value: copy_range(text, va, v.1),
                    },
                ),
            ),
        }
    }

    /// Parse the commit-file text: the outcome of the last attempted write,
    /// not necessarily the live hardware state.
    ///
    /// The grammar is `DEVS(<hex id>, <hex ignored>) = <hex result>`. The
    /// outer `Ok` wraps the decoded state when the id segment is present and
    /// matches; the outer `Err` wraps the same decoded state when the id
    /// segment is absent — the value was obtained but its correctness is
    /// unverifiable, which callers must not treat as a verified read. A
    /// present id that differs from this channel's is a hard protocol error.
    pub fn read_stale(&self, text: &[u8]) -> (r: Result<Result<State, State>, HardwareError>)
        ensures
            ({
                let t = text@;
                match r {
                    Ok(inner) => {
                        &&& devs_wf(t)
                        &&& devs_value_ok(t)
                        &&& match inner {
                            Ok(v) => State::spec_decode(devs_value(t)) == Some(v) && devs_id_value(
                                t,
                            ) == Some(self.spec_dev_id()),
                            Err(v) => State::spec_decode(devs_value(t)) == Some(v)
                                && devs_id_value(t) is None,
                        }
                    },
                    Err(e) => match e {
                        HardwareError::DevsConfigFileError(de) => match de {
                            DevsConfigFileError::UnexpectedConfigFormat { value, dev_id } => {
                                &&& value@ == t
                                &&& dev_id == self.spec_dev_id()
                                &&& (!devs_wf(t) || ({
                                    &&& devs_value_ok(t)
                                    &&& State::spec_decode(devs_value(t)) is Some
                                    &&& devs_id_value(t) matches Some(id) && id
                                        != self.spec_dev_id()
                                }))
                            },
                            DevsConfigFileError::InvalidHexadecimalValue { value } => {
                                &&& devs_wf(t)
                                &&& !devs_value_ok(t)
                                &&& value@ == t.subrange(
                                    devs_value_region(t).0,
                                    devs_value_region(t).1,
                                )
                            },
                        },
                        HardwareError::StateError(se) => {
                            &&& devs_wf(t)
                            &&& devs_value_ok(t)
                            &&& State::spec_decode(devs_value(t)) is None
                            &&& se == (StateError::NotPossibleState { value: devs_value(t) })
                        },
                        _ => false,
                    },
                }
            }),
    {
        let len = text.len();
        let e = trim_end_range(text, 0, len);
        let prefix_ok = e >= 5 && text[0] == 0x44 && text[1] == 0x45 && text[2] == 0x56 && text[3]
            == 0x53 && text[4] == 0x28;
        if !prefix_ok {
            return Err(self.devs_format_error(text));
        }
        let eq = match rfind_byte(text, 5, e, 0x3d) {
            Some(i) => i,
            None => {
                return Err(self.devs_format_error(text));
            },
        };
        let comma = find_byte(text, 5, eq, 0x2c);
        if comma >= eq {
            return Err(self.devs_format_error(text));
        }
        let s = trim_range(text, comma + 1, eq);
        if !(s.1 > s.0 && text[s.1 - 1] == 0x29) {
            return Err(self.devs_format_error(text));
        }
        let v = trim_range(text, eq + 1, e);
        let va = skip_0x(text, v.0, v.1);
        let value = match parse_hex_u64(text, va, v.1) {
            Some(value) => value,
            None => {
                return Err(
                    HardwareError::DevsConfigFileError(
                        DevsConfigFileError::InvalidHexadecimalValue {
                            value: copy_range(text, va, v.1),
                        },
                    ),
                );
            },
        };
        let state = match State::decode(value) {
            Ok(state) => state,
            Err(se) => {
                return Err(HardwareError::StateError(se));
            },
        };
        let i = trim_range(text, 5, comma);
        let ia = skip_0x(text, i.0, i.1);
        let inferred: Option<u64> = if ia > i.0 {
            parse_hex_u64(text, ia, i.1)
        } else {
            None
        };
        proof {
            assert(inferred == devs_id_value(text@));
        }
        match inferred {
            Some(id) => {
                if id == self.dev_id {
                    Ok(Ok(state))
                } else {
                    Err(self.devs_format_error(text))
                }
            },
            None => Ok(Err(state)),
        }
    }

    /// The protocol error for a commit text this channel cannot accept.
    fn devs_format_error(&self, text: &[u8]) -> (e: HardwareError)
        ensures
            e matches HardwareError::DevsConfigFileError(
                DevsConfigFileError::UnexpectedConfigFormat { value, dev_id },
            ) && value@ == text@ && dev_id == self.spec_dev_id(),
    {
        HardwareError::DevsConfigFileError(
            DevsConfigFileError::UnexpectedConfigFormat {
                value: copy_range(text, 0, text.len()),
                dev_id: self.dev_id,
            },
        )
    }
}

// ---------------------------------------------------------------------------
// The mask-discovery law, over a model of the kernel side
// ---------------------------------------------------------------------------

/// Model of the register behind one `dev_id`: it holds a true raw state and a
/// device-specific, undocumented mask. Reading the status file yields the raw
/// state XORed with the mask; committing a parameter write replaces the raw
/// state and leaves the mask alone.
pub struct DebugfsDevice {
    pub raw: u64,
    pub mask: u64,
}

/// What the status file reads back on this device.
pub open spec fn model_dsts_readback(d: DebugfsDevice) -> u64 {
    d.raw ^ d.mask
}

/// The device after a parameter write of `raw` is committed.
pub open spec fn model_commit(d: DebugfsDevice, raw: u64) -> DebugfsDevice {
    DebugfsDevice { raw, mask: d.mask }
}

/// Mask discovery is exact and non-destructive: run against any device, the
/// perturb/observe/restore sequence of the reliable read — force the register
/// to zero, read back the mask, then write back `r0 XOR mask` — learns
/// exactly the device's mask, leaves the device in the state it started in,
/// and unmasks the original readback to the device's true raw state.
pub proof fn lemma_mask_discovery(d: DebugfsDevice)
    ensures
        ({
            let r0 = model_dsts_readback(d);
            let perturbed = model_commit(d, 0);
            let m = model_dsts_readback(perturbed);
            let restored = model_commit(perturbed, r0 ^ m);
            &&& m == d.mask
            &&& restored == d
            &&& r0 ^ m == d.raw
        }),
{
    let vraw = d.raw;
    let vmask = d.mask;
    assert(0u64 ^ vmask == vmask) by (bit_vector);
    assert((vraw ^ vmask) ^ vmask == vraw) by (bit_vector);
}

/// Mask discovery is idempotent: because the first run restores the device,
/// an immediate second run (with no external interference) observes the same
/// readbacks and learns the same mask.
pub proof fn lemma_mask_discovery_idempotent(d: DebugfsDevice)
    ensures
        ({
            let r0 = model_dsts_readback(d);
            let m1 = model_dsts_readback(model_commit(d, 0));
            let after_first = model_commit(model_commit(d, 0), r0 ^ m1);
            let r1 = model_dsts_readback(after_first);
            let m2 = model_dsts_readback(model_commit(after_first, 0));
            &&& m2 == m1
            &&& r1 == r0
        }),
{
    lemma_mask_discovery(d);
}

} // verus!
