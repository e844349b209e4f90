//! Grammar of the two debugfs readback texts, stated over byte sequences.
//!
//! The status file reads back as `DSTS(<hex id>) = <hex value>` and the
//! commit file as `DEVS(<hex id>, <hex ignored>) = <hex result>`. The `0x`
//! prefix is optional on every value segment; on the status file's id segment
//! both spellings are tolerated, while the commit file's id segment counts as
//! present only with the `0x` spelling. An id segment that cannot be read as
//! a hexadecimal numeral counts as absent rather than malformed.
//!
//! These functions name the regions and embedded values of a readback text;
//! the channel's parsing contracts in [`crate::debugfs::config`] are stated
//! over them.

use crate::text::after_0x;
use crate::text::find_from;
use crate::text::hex_value;
use crate::text::is_hex_u64;
use crate::text::rfind_from;
use crate::text::trim_end_from;
use crate::text::trim_start_from;
use vstd::prelude::*;

verus! {

/// Trim `[lo, hi)` on both sides, yielding the trimmed range.
pub open spec fn trimmed(t: Seq<u8>, lo: int, hi: int) -> (int, int) {
    let a = trim_start_from(t, lo, hi);
    (a, trim_end_from(t, a, hi))
}

// ---------------------------------------------------------------------------
// DSTS: the authoritative (masked) status readback
// ---------------------------------------------------------------------------

/// Index of the `=` separating the id part from the value part.
pub open spec fn dsts_eq(t: Seq<u8>) -> int {
    find_from(t, 0, t.len() as int, 0x3d)
}

/// Whether the text has the mandatory `=` separator at all.
pub open spec fn dsts_has_eq(t: Seq<u8>) -> bool {
    dsts_eq(t) < t.len()
}

/// The region between `(` and the first `)` of the id part, if both occur.
pub open spec fn dsts_id_region(t: Seq<u8>) -> Option<(int, int)> {
    let eq = dsts_eq(t);
    let close = find_from(t, 0, eq, 0x29);
    if close >= eq {
        None
    } else {
        let open = find_from(t, 0, close, 0x28);
        if open >= close {
            None
        } else {
            Some((open + 1, close))
        }
    }
}

/// The embedded device id, if its segment is present and reads as a
/// hexadecimal numeral (with or without a `0x` prefix).
pub open spec fn dsts_id_value(t: Seq<u8>) -> Option<u64> {
    match dsts_id_region(t) {
        None => None,
        Some(region) => {
            let r = trimmed(t, region.0, region.1);
            let a = after_0x(t, r.0, r.1);
            if is_hex_u64(t, a, r.1) {
                Some(hex_value(t, a, r.1) as u64)
            } else {
                None
            }
        },
    }
}

/// The trimmed, `0x`-stripped value segment after the `=`.
pub open spec fn dsts_value_region(t: Seq<u8>) -> (int, int) {
    let r = trimmed(t, dsts_eq(t) + 1, t.len() as int);
    (after_0x(t, r.0, r.1), r.1)
}

/// Whether the value segment reads as a hexadecimal `u64`.
pub open spec fn dsts_value_ok(t: Seq<u8>) -> bool {
    is_hex_u64(t, dsts_value_region(t).0, dsts_value_region(t).1)
}

/// The masked raw value the status text carries.
pub open spec fn dsts_value(t: Seq<u8>) -> u64 {
    hex_value(t, dsts_value_region(t).0, dsts_value_region(t).1) as u64
}

// ---------------------------------------------------------------------------
// DEVS: the commit-file readback of the last attempted write
// ---------------------------------------------------------------------------

/// End of the text once trailing whitespace is dropped.
pub open spec fn devs_end(t: Seq<u8>) -> int {
    trim_end_from(t, 0, t.len() as int)
}

/// Whether the trimmed text starts with the literal `DEVS(`.
pub open spec fn devs_has_prefix(t: Seq<u8>) -> bool {
    devs_end(t) >= 5 && t[0] == 0x44 && t[1] == 0x45 && t[2] == 0x56 && t[3] == 0x53 && t[4]
        == 0x28
}

/// Index of the last `=` of the trimmed text, past the prefix.
pub open spec fn devs_eq(t: Seq<u8>) -> int {
    rfind_from(t, 5, devs_end(t), 0x3d)
}

/// Index of the first `,` between the prefix and the `=`.
pub open spec fn devs_comma(t: Seq<u8>) -> int {
    find_from(t, 5, devs_eq(t), 0x2c)
}

/// Whether the text is well-formed apart from its numeric segments: prefix,
/// separator, comma, and a `)` closing the ignored field.
pub open spec fn devs_wf(t: Seq<u8>) -> bool {
    &&& devs_has_prefix(t)
    &&& devs_eq(t) >= 5
    &&& devs_comma(t) < devs_eq(t)
    &&& {
        let r = trimmed(t, devs_comma(t) + 1, devs_eq(t));
        r.1 > r.0 && t[r.1 - 1] == 0x29
    }
}

/// The embedded device id, if its segment reads as a `0x`-prefixed
/// hexadecimal numeral.
pub open spec fn devs_id_value(t: Seq<u8>) -> Option<u64> {
    let r = trimmed(t, 5, devs_comma(t));
    let a = after_0x(t, r.0, r.1);
    if a > r.0 && is_hex_u64(t, a, r.1) {
        Some(hex_value(t, a, r.1) as u64)
    } else {
        None
    }
}

/// The trimmed, `0x`-stripped result segment after the `=`.
pub open spec fn devs_value_region(t: Seq<u8>) -> (int, int) {
    let r = trimmed(t, devs_eq(t) + 1, devs_end(t));
    (after_0x(t, r.0, r.1), r.1)
}

/// Whether the result segment reads as a hexadecimal `u64`.
pub open spec fn devs_value_ok(t: Seq<u8>) -> bool {
    is_hex_u64(t, devs_value_region(t).0, devs_value_region(t).1)
}

/// The raw result value the commit text carries.
pub open spec fn devs_value(t: Seq<u8>) -> u64 {
    hex_value(t, devs_value_region(t).0, devs_value_region(t).1) as u64
}

} // verus!
