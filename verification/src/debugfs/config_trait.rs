//! The `Config` trait: a closed, declared set of hardware states with an
//! injective raw encoding, convertible to the exact text written to the
//! `ctrl_param` control file.

use crate::debugfs::error::StateError;
use crate::text::dec_of;
use crate::text::u64_to_dec;
use vstd::prelude::*;

verus! {

/// A state set usable as the configuration of a debugfs-controlled hardware
/// component.
///
/// `spec_raw` gives the declared raw register encoding of each state, and
/// `spec_decode` gives the (partial) inverse over raw values. Every
/// implementation proves the two codec laws: each declared state decodes back
/// from its own raw code, and decoding succeeds only on the exact raw code of
/// the state it returns. Together they make the encoding injective and the
/// decoder total exactly over the declared set.
pub trait Config: Sized + Copy {
    /// Declared raw register encoding of this state.
    spec fn spec_raw(self) -> u64;

    /// The state declared for the raw value `raw`, if any.
    spec fn spec_decode(raw: u64) -> Option<Self>;

    /// Codec law: every declared state decodes back from its own raw code.
    proof fn lemma_decode_raw(self)
        ensures
            Self::spec_decode(self.spec_raw()) == Some(self),
    ;

    /// Codec law: decoding only succeeds on the raw code of the returned
    /// state; no state is reachable from a foreign raw value.
    proof fn lemma_decode_sound(raw: u64)
        ensures
            Self::spec_decode(raw) matches Some(v) ==> v.spec_raw() == raw,
    ;

    /// The raw register encoding of this state.
    fn raw(&self) -> (r: u64)
        ensures
            r == self.spec_raw(),
    ;

    /// Decode a raw register value into a declared state; any raw value
    /// outside the declared set is rejected as a domain error.
    fn decode(raw: u64) -> (r: Result<Self, StateError>)
        ensures
            match r {
                Ok(v) => Self::spec_decode(raw) == Some(v),
                Err(e) => {
                    &&& Self::spec_decode(raw) is None
                    &&& e == (StateError::NotPossibleState { value: raw })
                },
            },
    ;

    /// The exact text written to the `ctrl_param` file for this state: the
    /// decimal rendering of its raw code.
    fn to_config(&self) -> (s: Vec<u8>)
        ensures
            s@ == dec_of(self.spec_raw() as nat),
    {
        u64_to_dec(self.raw())
    }
}

/// The declared set, made explicit: a raw value decodes exactly when some
/// declared state encodes as it — the decoder is total precisely over the
/// declared set.
pub proof fn lemma_codec_declared_set<C: Config>(raw: u64)
    ensures
        C::spec_decode(raw) is Some <==> exists|v: C| #[trigger] v.spec_raw() == raw,
{
    match C::spec_decode(raw) {
        Some(v) => {
            C::lemma_decode_sound(raw);
            assert(v.spec_raw() == raw);
        },
        None => {
            if exists|v: C| #[trigger] v.spec_raw() == raw {
                let v = choose|v: C| #[trigger] v.spec_raw() == raw;
                v.lemma_decode_raw();
            }
        },
    }
}

/// The declared encoding is injective: two states with the same raw code are
/// the same state, so no two domain values share a raw code.
pub proof fn lemma_codec_injective<C: Config>(a: C, b: C)
    requires
        a.spec_raw() == b.spec_raw(),
    ensures
        a == b,
{
    a.lemma_decode_raw();
    b.lemma_decode_raw();
}

/// Identity codec for plain `u64` parameters: every value is declared and
/// encodes as itself. This is what the channel's raw escape hatch writes.
impl Config for u64 {
    open spec fn spec_raw(self) -> u64 {
        self
    }

    open spec fn spec_decode(raw: u64) -> Option<u64> {
        Some(raw)
    }

    proof fn lemma_decode_raw(self) {
    }

    proof fn lemma_decode_sound(raw: u64) {
    }

    fn raw(&self) -> u64 {
        *self
    }

    fn decode(raw: u64) -> Result<u64, StateError> {
        Ok(raw)
    }
}

/// Identity codec for `u8` parameters: declared exactly for raw values that
/// fit in the type.
impl Config for u8 {
    open spec fn spec_raw(self) -> u64 {
        self as u64
    }

    open spec fn spec_decode(raw: u64) -> Option<u8> {
        if raw <= u8::MAX {
            Some(raw as u8)
        } else {
            None
        }
    }

    proof fn lemma_decode_raw(self) {
    }

    proof fn lemma_decode_sound(raw: u64) {
    }

    fn raw(&self) -> u64 {
        *self as u64
    }

    fn decode(raw: u64) -> Result<u8, StateError> {
        if raw <= u8::MAX as u64 {
            Ok(raw as u8)
        } else {
            Err(StateError::NotPossibleState { value: raw })
        }
    }
}

/// Identity codec for `u16` parameters.
impl Config for u16 {
    open spec fn spec_raw(self) -> u64 {
        self as u64
    }

    open spec fn spec_decode(raw: u64) -> Option<u16> {
        if raw <= u16::MAX {
            Some(raw as u16)
        } else {
            None
        }
    }

    proof fn lemma_decode_raw(self) {
    }

    proof fn lemma_decode_sound(raw: u64) {
    }

    fn raw(&self) -> u64 {
        *self as u64
    }

    fn decode(raw: u64) -> Result<u16, StateError> {
        if raw <= u16::MAX as u64 {
            Ok(raw as u16)
        } else {
            Err(StateError::NotPossibleState { value: raw })
        }
    }
}

/// Identity codec for `u32` parameters.
impl Config for u32 {
    open spec fn spec_raw(self) -> u64 {
        self as u64
    }

    open spec fn spec_decode(raw: u64) -> Option<u32> {
        if raw <= u32::MAX {
            Some(raw as u32)
        } else {
            None
        }
    }

    proof fn lemma_decode_raw(self) {
    }

    proof fn lemma_decode_sound(raw: u64) {
    }

    fn raw(&self) -> u64 {
        *self as u64
    }

    fn decode(raw: u64) -> Result<u32, StateError> {
        if raw <= u32::MAX as u64 {
            Ok(raw as u32)
        } else {
            Err(StateError::NotPossibleState { value: raw })
        }
    }
}

} // verus!
