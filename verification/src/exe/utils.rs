//! Reading little-endian UTF-16 from bytes, and alignment to four bytes.

use crate::text::utf16_lossy_of;
use vstd::prelude::*;

verus! {

/// The bytes that must follow offset `n` to reach a multiple of four.
pub open spec fn padding4(n: int) -> int {
    (4 - n % 4) % 4
}

/// The least multiple of four that is not below `n`.
pub open spec fn align4(n: int) -> int {
    n + padding4(n)
}

/// The 16-bit number that the two bytes at `i` spell, the low byte first.
pub open spec fn u16_at(data: Seq<u8>, i: int) -> u16 {
    (data[i] as int + 256 * (data[i + 1] as int)) as u16
}

/// The `n` UTF-16 code units that start at `start`.
pub open spec fn units_at(data: Seq<u8>, start: int, n: nat) -> Seq<u16> {
    Seq::new(n, |j: int| u16_at(data, start + 2 * j))
}

/// The number of code units from `start` to the first code unit that is
/// zero, where that zero lies before `limit`; `None` where none does.
pub open spec fn widestring_len(data: Seq<u8>, start: int, limit: int) -> Option<nat>
    decreases limit - start,
{
    if start < 0 || start + 2 > limit || limit > data.len() {
        None
    } else if u16_at(data, start) == 0 {
        Some(0)
    } else {
        match widestring_len(data, start + 2, limit) {
            Some(n) => Some(n + 1),
            None => None,
        }
    }
}

/// The number of code units from `start` to the first one that is zero, or
/// `max` where none of the first `max` is.
pub open spec fn text_len(data: Seq<u8>, start: int, max: int) -> nat
    decreases max,
{
    if max <= 0 || u16_at(data, start) == 0 {
        0
    } else {
        1 + text_len(data, start + 2, max - 1)
    }
}

/// The text of at most `max` code units at `start`: it ends before the first
/// code unit that is zero.
pub open spec fn text_at(data: Seq<u8>, start: int, max: int) -> Seq<u16> {
    units_at(data, start, text_len(data, start, max))
}

/// The one or two code units that stand for `c` in UTF-16.
pub open spec fn utf16_of_char(c: char) -> Seq<u16> {
    if (c as u32) < 0x10000 {
        seq![c as u32 as u16]
    } else {
        seq![
            (0xD800 + (c as u32 - 0x10000) / 0x400) as u16,
            (0xDC00 + (c as u32 - 0x10000) % 0x400) as u16,
        ]
    }
}

/// The code units that stand for `text` in UTF-16.
pub open spec fn utf16_of(text: Seq<char>) -> Seq<u16>
    decreases text.len(),
{
    if text.len() == 0 {
        Seq::empty()
    } else {
        utf16_of(text.drop_last()) + utf16_of_char(text.last())
    }
}

/// `units` spells `text` in UTF-16.
pub open spec fn spells(units: Seq<u16>, text: Seq<char>) -> bool {
    units == utf16_of(text)
}

/// What is encoded in UTF-16 decodes to what it was, whatever follows it.
pub proof fn lemma_utf16_decodes(text: Seq<char>, rest: Seq<u16>)
    ensures
        utf16_lossy_of(utf16_of(text) + rest) == text + utf16_lossy_of(rest),
    decreases text.len(),
{
    if text.len() == 0 {
        assert(utf16_of(text) + rest == rest);
        assert(text + utf16_lossy_of(rest) == utf16_lossy_of(rest));
    } else {
        let c = text.last();
        let units = utf16_of_char(c) + rest;
        vstd::utf8::char_is_scalar(c);
        vstd::utf8::char_u32_cast(c, c as u32);
        assert(utf16_of(text) + rest == utf16_of(text.drop_last()) + units);
        lemma_utf16_decodes(text.drop_last(), units);
        if (c as u32) < 0x10000 {
            assert(units.skip(1) == rest);
        } else {
            assert(units.skip(2) == rest);
            let v = (c as u32 - 0x10000) as int;
            assert(0x10000 + (v / 0x400) * 0x400 + v % 0x400 == c as u32);
        }
        assert(utf16_lossy_of(units) == seq![c] + utf16_lossy_of(rest));
        assert(text.drop_last() + (seq![c] + utf16_lossy_of(rest)) == text + utf16_lossy_of(rest));
    }
}

/// To encode a text in UTF-16 and to decode it again gives the text.
pub proof fn lemma_utf16_round_trip(text: Seq<char>)
    ensures
        utf16_lossy_of(utf16_of(text)) == text,
{
    lemma_utf16_decodes(text, Seq::empty());
    assert(utf16_of(text) + Seq::<u16>::empty() == utf16_of(text));
    assert(text + Seq::<char>::empty() == text);
}

/// The sum of `lengths`, each rounded up to a multiple of four.
pub open spec fn padded_lengths(lengths: Seq<u16>) -> int
    decreases lengths.len(),
{
    if lengths.len() == 0 {
        0
    } else {
        align4(lengths[0] as int) + padded_lengths(lengths.drop_first())
    }
}

/// Rounding up to a multiple of four: the result is the least multiple that
/// is not below, it keeps the order, and a multiple of four can be taken out
/// of it.
pub proof fn lemma_align4(n: int, m: int)
    requires
        0 <= n,
        0 <= m,
    ensures
        0 <= padding4(n) < 4,
        align4(n) % 4 == 0,
        n <= align4(n) < n + 4,
        n % 4 == 0 ==> align4(n) == n,
        n % 4 == 0 ==> align4(n + m) == n + align4(m) && padding4(n + m) == padding4(m),
        n <= m ==> align4(n) <= align4(m),
        n <= m <= align4(n) ==> align4(m) == align4(n),
{
}

/// The bytes that must follow `offset` to reach a multiple of four.
pub fn padding(offset: usize) -> (r: usize)
    ensures
        r == padding4(offset as int),
        r < 4,
        (offset + r) % 4 == 0,
{
    (4 - offset % 4) % 4
}

/// Reads the 16-bit number at `offset`, the low byte first.
pub fn read_u16(data: &[u8], offset: usize) -> (r: u16)
    requires
        offset + 2 <= data.len(),
    ensures
        r == u16_at(data@, offset as int),
{
    let low: u16 = data[offset] as u16;
    let high: u16 = data[offset + 1] as u16;
    low + 256 * high
}

/// Reads `n` code units from `start` on.
pub fn read_units(data: &[u8], start: usize, n: usize) -> (r: Vec<u16>)
    requires
        start + 2 * n <= data.len(),
    ensures
        r@ == units_at(data@, start as int, n as nat),
{
    let mut out: Vec<u16> = Vec::new();
    let mut j: usize = 0;
    while j < n
        invariant
            j <= n,
            start + 2 * n <= data.len(),
            out@ == units_at(data@, start as int, j as nat),
        decreases n - j,
    {
        out.push(read_u16(data, start + 2 * j));
        j += 1;
    }
    out
}

/// Counts the code units from `offset` to the zero that ends the text.  The
/// zero must lie before `limit`.
pub fn get_widestring_size(data: &[u8], offset: usize, limit: usize) -> (r: Option<usize>)
    requires
        limit <= data.len(),
    ensures
        match r {
            Some(n) => widestring_len(data@, offset as int, limit as int) == Some(n as nat)
                && offset + 2 * n + 2 <= limit,
            None => widestring_len(data@, offset as int, limit as int) is None,
        },
{
    let mut n: usize = 0;
    let mut at: usize = offset;
    loop
        invariant
            limit <= data.len(),
            at == offset + 2 * n,
            at <= limit || n == 0,
            match widestring_len(data@, at as int, limit as int) {
                Some(m) => widestring_len(data@, offset as int, limit as int) == Some(m + n as nat),
                None => widestring_len(data@, offset as int, limit as int) is None,
            },
        decreases limit - at,
    {
        if limit < 2 || at > limit - 2 {
            return None;
        }
        if read_u16(data, at) == 0 {
            return Some(n);
        }
        n += 1;
        at += 2;
    }
}

/// Counts the code units from `start` to the first zero among the first
/// `max`, or returns `max`.
pub fn text_size(data: &[u8], start: usize, max: usize) -> (r: usize)
    requires
        start + 2 * max <= data.len(),
    ensures
        r == text_len(data@, start as int, max as int),
        r <= max,
{
    let mut n: usize = 0;
    while n < max
        invariant
            n <= max,
            start + 2 * max <= data.len(),
            text_len(data@, start as int, max as int) == n + text_len(
                data@,
                start + 2 * n,
                max - n,
            ),
        decreases max - n,
    {
        if read_u16(data, start + 2 * n) == 0 {
            return n;
        }
        n += 1;
    }
    n
}

/// Whether two runs of code units are the same.
pub fn same_units(a: &[u16], b: &[u16]) -> (r: bool)
    ensures
        r == (a@ == b@),
{
    if a.len() != b.len() {
        return false;
    }
    let mut i: usize = 0;
    while i < a.len()
        invariant
            i <= a.len(),
            a.len() == b.len(),
            a@.take(i as int) == b@.take(i as int),
        decreases a.len() - i,
    {
        if a[i] != b[i] {
            return false;
        }
        i += 1;
    }
    assert(a@.take(a.len() as int) == a@ && b@.take(b.len() as int) == b@);
    true
}

/// The code units that stand for `text` in UTF-16.
pub fn encode_utf16(text: &str) -> (r: Vec<u16>)
    ensures
        r@ == utf16_of(text@),
{
    let chars = crate::text::chars_of(text);
    let mut out: Vec<u16> = Vec::new();
    let mut i: usize = 0;
    while i < chars.len()
        invariant
            i <= chars.len(),
            chars@ == text@,
            out@ == utf16_of(text@.take(i as int)),
        decreases chars.len() - i,
    {
        let v: u32 = chars[i] as u32;
        assert(text@.take(i + 1).drop_last() == text@.take(i as int));
        if v < 0x10000 {
            out.push(v as u16);
        } else {
            out.push((0xD800 + (v - 0x10000) / 0x400) as u16);
            out.push((0xDC00 + (v - 0x10000) % 0x400) as u16);
        }
        i += 1;
    }
    assert(text@.take(chars.len() as int) == text@);
    out
}

/// Whether `units` spells `text` in UTF-16.
pub fn units_spell(units: &[u16], text: &str) -> (r: bool)
    ensures
        r == spells(units@, text@),
{
    let encoded = encode_utf16(text);
    same_units(units, encoded.as_slice())
}

} // verus!
