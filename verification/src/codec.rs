//! Table-driven enumeration codecs.
//!
//! Where a hardware component's states are not worth a dedicated enum, a
//! codec can be built at run time from an ordered table of {label, raw value}
//! rows. Construction validates that the table is injective — no two rows may
//! declare the same raw code — so that decoding is unambiguous.

use crate::debugfs::error::StateError;
use crate::text::dec_of;
use crate::text::u64_to_dec;
use vstd::prelude::*;

verus! {

/// One row of a codec table: a label naming the state, and the raw register
/// code it encodes as.
#[derive(Debug, Clone, PartialEq, Eq)]
pub struct CodecEntry {
    pub label: Vec<u8>,
    pub raw: u64,
}

/// Rejection of a table that declares the same raw code twice.
#[derive(Debug, Clone, Copy, PartialEq, Eq, Structural)]
pub enum CodecTableError {
    DuplicateRawValue { raw: u64 },
}

/// A codec over a closed, ordered table of states, addressed by row index.
#[derive(Debug)]
pub struct EnumCodec {
    entries: Vec<CodecEntry>,
}

impl EnumCodec {
    pub closed spec fn spec_entries(self) -> Seq<CodecEntry> {
        self.entries@
    }

    pub open spec fn spec_len(self) -> nat {
        self.spec_entries().len()
    }

    /// Raw code declared by row `i`.
    pub open spec fn spec_raw(self, i: int) -> u64 {
        self.spec_entries()[i].raw
    }

    /// No two rows share a raw code.
    pub open spec fn injective(self) -> bool {
        forall|i: int, j: int|
            0 <= i < j < self.spec_len() ==> self.spec_raw(i) != self.spec_raw(j)
    }

    /// Build a codec from an ordered table, rejecting any table that declares
    /// one raw code twice.
    pub fn new(entries: Vec<CodecEntry>) -> (r: Result<EnumCodec, CodecTableError>)
        ensures
            match r {
                Ok(c) => c.spec_entries() == entries@ && c.injective(),
                Err(e) => e matches CodecTableError::DuplicateRawValue { raw } && exists|
                    i: int,
                    j: int,
                |
                    0 <= i < j < entries@.len() && entries@[i].raw == raw && entries@[j].raw
                        == raw,
            },
    {
        let n = entries.len();
        let mut i: usize = 0;
        while i < n
            invariant
                i <= n == entries@.len(),
                forall|a: int, b: int|
                    0 <= a < b < entries@.len() && a < i ==> entries@[a].raw != entries@[b].raw,
            decreases n - i,
        {
            let mut j: usize = i + 1;
            while j < n
                invariant
                    i < j <= n == entries@.len(),
                    forall|b: int| i < b < j ==> entries@[i as int].raw != entries@[b].raw,
                decreases n - j,
            {
                if entries[j].raw == entries[i].raw {
                    return Err(CodecTableError::DuplicateRawValue { raw: entries[i].raw });
                }
                j = j + 1;
            }
            i = i + 1;
        }
        Ok(EnumCodec { entries })
    }

    pub fn len(&self) -> (n: usize)
        ensures
            n == self.spec_len(),
    {
        self.entries.len()
    }

    /// Label of row `i`.
    pub fn label(&self, i: usize) -> (l: &Vec<u8>)
        requires
            i < self.spec_len(),
        ensures
            l@ == self.spec_entries()[i as int].label@,
    {
        &self.entries[i].label
    }

    /// The exact text written to a control file for the state of row `i`:
    /// the decimal rendering of its raw code.
    pub fn encode(&self, i: usize) -> (s: Vec<u8>)
        requires
            i < self.spec_len(),
        ensures
            s@ == dec_of(self.spec_raw(i as int) as nat),
    {
        u64_to_dec(self.entries[i].raw)
    }

    /// Row index declaring `raw`; any raw code outside the table is a domain
    /// error.
    pub fn decode(&self, raw: u64) -> (r: Result<usize, StateError>)
        ensures
            match r {
                Ok(i) => {
                    &&& i < self.spec_len()
                    &&& self.spec_raw(i as int) == raw
                    &&& forall|j: int| 0 <= j < i ==> self.spec_raw(j) != raw
                },
                Err(e) => {
                    &&& forall|j: int| 0 <= j < self.spec_len() ==> self.spec_raw(j) != raw
                    &&& e == (StateError::NotPossibleState { value: raw })
                },
            },
    {
        let n = self.entries.len();
        let mut i: usize = 0;
        while i < n
            invariant
                i <= n == self.spec_len(),
                forall|j: int| 0 <= j < i ==> self.spec_raw(j) != raw,
            decreases n - i,
        {
            if self.entries[i].raw == raw {
                return Ok(i);
            }
            i = i + 1;
        }
        Err(StateError::NotPossibleState { value: raw })
    }

    /// Round trip for table codecs: under injectivity a raw code selects one
    /// row alone, so decoding the code of row `i` can only yield `i`.
    pub proof fn lemma_round_trip(self, i: int, j: int)
        requires
            self.injective(),
            0 <= i < self.spec_len(),
            0 <= j < self.spec_len(),
            self.spec_raw(j) == self.spec_raw(i),
        ensures
            j == i,
    {
    }
}

} // verus!
