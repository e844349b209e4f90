//! Byte-level text primitives shared by the two protocol channels: ASCII
//! classification, decimal rendering of register values, and bounded decimal
//! and hexadecimal parsing of readback texts.

use vstd::prelude::*;

verus! {

// ---------------------------------------------------------------------------
// ASCII classification
// ---------------------------------------------------------------------------

/// ASCII whitespace as the readback grammars tolerate it around their fields.
pub open spec fn is_space(b: u8) -> bool {
    b == 0x20 || b == 0x09 || b == 0x0a || b == 0x0d
}

pub open spec fn is_dec_digit(b: u8) -> bool {
    0x30 <= b <= 0x39
}

pub open spec fn is_hex_digit(b: u8) -> bool {
    is_dec_digit(b) || (0x41 <= b <= 0x46) || (0x61 <= b <= 0x66)
}

/// Numeric value of a hexadecimal digit byte (both letter cases).
pub open spec fn hex_digit_value(b: u8) -> nat {
    if is_dec_digit(b) {
        (b - 0x30) as nat
    } else if 0x41 <= b <= 0x46 {
        (b - 0x41 + 10) as nat
    } else {
        (b - 0x61 + 10) as nat
    }
}

fn is_space_byte(b: u8) -> (r: bool)
    ensures
        r == is_space(b),
{
    b == 0x20 || b == 0x09 || b == 0x0a || b == 0x0d
}

/// Numeric value of a hexadecimal digit byte, or `None` for any other byte.
fn hex_digit_of(b: u8) -> (r: Option<u8>)
    ensures
        match r {
            Some(d) => is_hex_digit(b) && d == hex_digit_value(b),
            None => !is_hex_digit(b),
        },
{
    if 0x30 <= b && b <= 0x39 {
        Some(b - 0x30)
    } else if 0x41 <= b && b <= 0x46 {
        Some(b - 0x41 + 10)
    } else if 0x61 <= b && b <= 0x66 {
        Some(b - 0x61 + 10)
    } else {
        None
    }
}

// ---------------------------------------------------------------------------
// Decimal rendering
// ---------------------------------------------------------------------------

/// The decimal digits of `n`, most significant first, without sign or padding.
pub open spec fn dec_of(n: nat) -> Seq<u8>
    decreases n,
{
    if n < 10 {
        seq![(0x30 + n) as u8]
    } else {
        dec_of(n / 10) + seq![(0x30 + n % 10) as u8]
    }
}

/// Render `n` as ASCII decimal digits, exactly as written to a control file.
pub fn u64_to_dec(n: u64) -> (digits: Vec<u8>)
    ensures
        digits@ == dec_of(n as nat),
    decreases n,
{
    if n < 10 {
        let mut digits: Vec<u8> = Vec::new();
        digits.push(0x30 + n as u8);
        proof {
            assert(digits@ =~= dec_of(n as nat));
        }
        digits
    } else {
        let mut digits = u64_to_dec(n / 10);
        digits.push(0x30 + (n % 10) as u8);
        proof {
            assert(digits@ =~= dec_of(n as nat));
        }
        digits
    }
}

// ---------------------------------------------------------------------------
// Searching and trimming within a byte slice
// ---------------------------------------------------------------------------

/// Index of the first occurrence of `b` in `s[lo..hi)`, or `hi` if absent.
pub open spec fn find_from(s: Seq<u8>, lo: int, hi: int, b: u8) -> int
    decreases hi - lo,
{
    if lo >= hi {
        hi
    } else if s[lo] == b {
        lo
    } else {
        find_from(s, lo + 1, hi, b)
    }
}

/// Index of the last occurrence of `b` in `s[lo..hi)`, or `lo - 1` if absent.
pub open spec fn rfind_from(s: Seq<u8>, lo: int, hi: int, b: u8) -> int
    decreases hi - lo,
{
    if lo >= hi {
        lo - 1
    } else if s[hi - 1] == b {
        hi - 1
    } else {
        rfind_from(s, lo, hi - 1, b)
    }
}

/// First index in `[lo, hi)` that does not begin leading whitespace.
pub open spec fn trim_start_from(s: Seq<u8>, lo: int, hi: int) -> int
    decreases hi - lo,
{
    if lo < hi && is_space(s[lo]) {
        trim_start_from(s, lo + 1, hi)
    } else {
        lo
    }
}

/// Index just past the last non-whitespace byte of `s[lo..hi)`.
pub open spec fn trim_end_from(s: Seq<u8>, lo: int, hi: int) -> int
    decreases hi - lo,
{
    if lo < hi && is_space(s[hi - 1]) {
        trim_end_from(s, lo, hi - 1)
    } else {
        hi
    }
}

/// Start of the range after an optional `0x` prefix.
pub open spec fn after_0x(s: Seq<u8>, lo: int, hi: int) -> int {
    if lo + 2 <= hi && s[lo] == 0x30 && s[lo + 1] == 0x78 {
        lo + 2
    } else {
        lo
    }
}

pub fn find_byte(s: &[u8], lo: usize, hi: usize, b: u8) -> (r: usize)
    requires
        lo <= hi <= s@.len(),
    ensures
        lo <= r <= hi,
        r == find_from(s@, lo as int, hi as int, b),
{
    let mut i: usize = lo;
    while i < hi
        invariant
            lo <= i <= hi <= s@.len(),
            find_from(s@, lo as int, hi as int, b) == find_from(s@, i as int, hi as int, b),
        decreases hi - i,
    {
        if s[i] == b {
            return i;
        }
        i = i + 1;
    }
    i
}

pub fn rfind_byte(s: &[u8], lo: usize, hi: usize, b: u8) -> (r: Option<usize>)
    requires
        lo <= hi <= s@.len(),
    ensures
        match r {
            Some(i) => lo <= i < hi && i == rfind_from(s@, lo as int, hi as int, b),
            None => rfind_from(s@, lo as int, hi as int, b) == lo - 1,
        },
{
    let mut i: usize = hi;
    while i > lo
        invariant
            lo <= i <= hi <= s@.len(),
            rfind_from(s@, lo as int, hi as int, b) == rfind_from(s@, lo as int, i as int, b),
        decreases i,
    {
        if s[i - 1] == b {
            return Some(i - 1);
        }
        i = i - 1;
    }
    None
}

/// Shrink `[lo, hi)` to the whitespace-trimmed subrange.
pub fn trim_range(s: &[u8], lo: usize, hi: usize) -> (r: (usize, usize))
    requires
        lo <= hi <= s@.len(),
    ensures
        lo <= r.0 <= r.1 <= hi,
        r.0 == trim_start_from(s@, lo as int, hi as int),
        r.1 == trim_end_from(s@, r.0 as int, hi as int),
{
    let mut a: usize = lo;
    while a < hi && is_space_byte(s[a])
        invariant
            lo <= a <= hi <= s@.len(),
            trim_start_from(s@, lo as int, hi as int) == trim_start_from(s@, a as int, hi as int),
        decreases hi - a,
    {
        a = a + 1;
    }
    let mut b: usize = hi;
    while b > a && is_space_byte(s[b - 1])
        invariant
            a <= b <= hi <= s@.len(),
            trim_end_from(s@, a as int, hi as int) == trim_end_from(s@, a as int, b as int),
        decreases b,
    {
        b = b - 1;
    }
    (a, b)
}

/// Shrink `[lo, hi)` from the right only, as a trailing-whitespace trim.
pub fn trim_end_range(s: &[u8], lo: usize, hi: usize) -> (r: usize)
    requires
        lo <= hi <= s@.len(),
    ensures
        lo <= r <= hi,
        r == trim_end_from(s@, lo as int, hi as int),
{
    let mut b: usize = hi;
    while b > lo && is_space_byte(s[b - 1])
        invariant
            lo <= b <= hi <= s@.len(),
            trim_end_from(s@, lo as int, hi as int) == trim_end_from(s@, lo as int, b as int),
        decreases b,
    {
        b = b - 1;
    }
    b
}

/// Advance `lo` past an optional `0x` prefix.
pub fn skip_0x(s: &[u8], lo: usize, hi: usize) -> (r: usize)
    requires
        lo <= hi <= s@.len(),
    ensures
        lo <= r <= hi,
        r == after_0x(s@, lo as int, hi as int),
{
    if hi - lo >= 2 && s[lo] == 0x30 && s[lo + 1] == 0x78 {
        lo + 2
    } else {
        lo
    }
}

/// Copy `s[lo..hi)` into a fresh vector.
pub fn copy_range(s: &[u8], lo: usize, hi: usize) -> (v: Vec<u8>)
    requires
        lo <= hi <= s@.len(),
    ensures
        v@ == s@.subrange(lo as int, hi as int),
{
    let mut v: Vec<u8> = Vec::new();
    let mut i: usize = lo;
    while i < hi
        invariant
            lo <= i <= hi <= s@.len(),
            v@ == s@.subrange(lo as int, i as int),
        decreases hi - i,
    {
        v.push(s[i]);
        proof {
            assert(v@ =~= s@.subrange(lo as int, i as int + 1));
        }
        i = i + 1;
    }
    v
}

// ---------------------------------------------------------------------------
// Bounded numeric parsing
// ---------------------------------------------------------------------------

pub open spec fn all_hex(s: Seq<u8>, lo: int, hi: int) -> bool {
    forall|i: int| lo <= i < hi ==> is_hex_digit(#[trigger] s[i])
}

pub open spec fn all_dec(s: Seq<u8>, lo: int, hi: int) -> bool {
    forall|i: int| lo <= i < hi ==> is_dec_digit(#[trigger] s[i])
}

/// Value of `s[lo..hi)` read as hexadecimal digits, most significant first.
pub open spec fn hex_value(s: Seq<u8>, lo: int, hi: int) -> nat
    decreases hi - lo,
{
    if lo >= hi {
        0
    } else {
        hex_value(s, lo, hi - 1) * 16 + hex_digit_value(s[hi - 1])
    }
}

/// Value of `s[lo..hi)` read as decimal digits, most significant first.
pub open spec fn dec_value(s: Seq<u8>, lo: int, hi: int) -> nat
    decreases hi - lo,
{
    if lo >= hi {
        0
    } else {
        dec_value(s, lo, hi - 1) * 10 + (s[hi - 1] - 0x30) as nat
    }
}

/// Whether `s[lo..hi)` is a well-formed hexadecimal numeral whose value fits
/// in a `u64`: nonempty, digits only, no sign, value at most `u64::MAX`.
pub open spec fn is_hex_u64(s: Seq<u8>, lo: int, hi: int) -> bool {
    lo < hi && all_hex(s, lo, hi) && hex_value(s, lo, hi) <= u64::MAX
}

/// Whether `s[lo..hi)` is a well-formed decimal numeral whose value fits in a
/// `u16`.
pub open spec fn is_dec_u16(s: Seq<u8>, lo: int, hi: int) -> bool {
    lo < hi && all_dec(s, lo, hi) && dec_value(s, lo, hi) <= u16::MAX
}

proof fn lemma_hex_value_monotone(s: Seq<u8>, lo: int, mid: int, hi: int)
    requires
        lo <= mid <= hi,
    ensures
        hex_value(s, lo, hi) >= hex_value(s, lo, mid),
    decreases hi - mid,
{
    if mid < hi {
        lemma_hex_value_monotone(s, lo, mid, hi - 1);
    }
}

proof fn lemma_dec_value_monotone(s: Seq<u8>, lo: int, mid: int, hi: int)
    requires
        lo <= mid <= hi,
    ensures
        dec_value(s, lo, hi) >= dec_value(s, lo, mid),
    decreases hi - mid,
{
    if mid < hi {
        lemma_dec_value_monotone(s, lo, mid, hi - 1);
    }
}

/// Parse `s[lo..hi)` as an unsigned hexadecimal numeral. `None` exactly when
/// the range is empty, holds a non-digit byte, or encodes a value beyond
/// `u64::MAX`.
pub fn parse_hex_u64(s: &[u8], lo: usize, hi: usize) -> (r: Option<u64>)
    requires
        lo <= hi <= s@.len(),
    ensures
        match r {
            Some(v) => is_hex_u64(s@, lo as int, hi as int) && v == hex_value(
                s@,
                lo as int,
                hi as int,
            ),
            None => !is_hex_u64(s@, lo as int, hi as int),
        },
{
    if lo == hi {
        return None;
    }
    let mut acc: u64 = 0;
    let mut i: usize = lo;
    while i < hi
        invariant
            lo <= i <= hi <= s@.len(),
            all_hex(s@, lo as int, i as int),
            acc == hex_value(s@, lo as int, i as int),
        decreases hi - i,
    {
        let d = match hex_digit_of(s[i]) {
            Some(d) => d,
            None => {
                return None;
            },
        };
        let wide: u128 = acc as u128 * 16 + d as u128;
        if wide > u64::MAX as u128 {
            proof {
                lemma_hex_value_monotone(s@, lo as int, i as int + 1, hi as int);
            }
            return None;
        }
        acc = wide as u64;
        i = i + 1;
    }
    Some(acc)
}

/// Parse `s[lo..hi)` as an unsigned decimal numeral. `None` exactly when the
/// range is empty, holds a non-digit byte, or encodes a value beyond
/// `u16::MAX`.
pub fn parse_dec_u16(s: &[u8], lo: usize, hi: usize) -> (r: Option<u16>)
    requires
        lo <= hi <= s@.len(),
    ensures
        match r {
            Some(v) => is_dec_u16(s@, lo as int, hi as int) && v == dec_value(
                s@,
                lo as int,
                hi as int,
            ),
            None => !is_dec_u16(s@, lo as int, hi as int),
        },
{
    if lo == hi {
        return None;
    }
    let mut acc: u16 = 0;
    let mut i: usize = lo;
    while i < hi
        invariant
            lo <= i <= hi <= s@.len(),
            all_dec(s@, lo as int, i as int),
            acc == dec_value(s@, lo as int, i as int),
        decreases hi - i,
    {
        let b = s[i];
        if !(0x30 <= b && b <= 0x39) {
            return None;
        }
        let d: u16 = (b - 0x30) as u16;
        let wide: u32 = acc as u32 * 10 + d as u32;
        if wide > u16::MAX as u32 {
            proof {
                lemma_dec_value_monotone(s@, lo as int, i as int + 1, hi as int);
            }
            return None;
        }
        acc = wide as u16;
        i = i + 1;
    }
    Some(acc)
}

} // verus!
