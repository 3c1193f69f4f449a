use crate::error::Error;
use crate::exe::utils::{align4, lemma_align4, padded_lengths, padding};
use crate::exe::vs_header::{header_at, lemma_header_at, VSHeader, VSHeaderView};
use crate::exe::vs_string::{string_at, VSString, VSStringView};
use vstd::prelude::*;

verus! {

/// The texts of one language: a record whose key names a language and a code
/// page with eight digits in base 16, and whose children give keys their
/// texts.
pub struct VSStringTable {
    pub header: VSHeader,
    pub children: Vec<VSString>,
}

/// What a `VSStringTable` holds.
pub struct VSStringTableView {
    pub header: VSHeaderView,
    pub children: Seq<VSStringView>,
}

/// What each of `strings` holds.
pub open spec fn string_views(strings: Seq<VSString>) -> Seq<VSStringView> {
    strings.map_values(|s: VSString| s@)
}

impl View for VSStringTable {
    type V = VSStringTableView;

    open spec fn view(&self) -> VSStringTableView {
        VSStringTableView { header: self.header@, children: string_views(self.children@) }
    }
}

/// A digit in base 16, in either case, as a code unit.
pub open spec fn is_hex_unit(unit: u16) -> bool {
    ||| 0x30 <= unit <= 0x39
    ||| 0x41 <= unit <= 0x46
    ||| 0x61 <= unit <= 0x66
}

/// The key is made of eight digits in base 16.
pub open spec fn is_language_key(key: Seq<u16>) -> bool {
    &&& key.len() == 8
    &&& forall|i: int| 0 <= i < 8 ==> is_hex_unit(#[trigger] key[i])
}

/// The records that fill the bytes from `cursor` up to `end`, each read as a
/// key with its text and each starting at the next multiple of four after the
/// one before.  There are none where one of them cannot be read or passes
/// `end`.
pub open spec fn strings_from(data: Seq<u8>, cursor: int, end: int) -> Option<Seq<VSStringView>>
    decreases end + 4 - cursor,
    via strings_from_terminates
{
    if cursor >= end {
        Some(Seq::empty())
    } else {
        match string_at(data, cursor) {
            None => None,
            Some(string) => if cursor + string.header.length > end {
                None
            } else {
                match strings_from(data, align4(cursor + string.header.length), end) {
                    None => None,
                    Some(rest) => Some(seq![string] + rest),
                }
            },
        }
    }
}

#[via_fn]
proof fn strings_from_terminates(data: Seq<u8>, cursor: int, end: int) {
    if string_at(data, cursor) is Some {
        lemma_header_at(data, cursor);
        lemma_align4(cursor + header_at(data, cursor)->0.length, 0);
    }
}

/// The record at `base`, read as the texts of one language.
pub open spec fn string_table_at(data: Seq<u8>, base: int) -> Option<VSStringTableView> {
    match header_at(data, base) {
        None => None,
        Some(header) => if !is_language_key(header.key) {
            None
        } else {
            match strings_from(data, base + header.children_offset(), base + header.length) {
                None => None,
                Some(children) => Some(VSStringTableView { header, children }),
            }
        },
    }
}

/// The length that each of `strings` states.
pub open spec fn string_lengths(strings: Seq<VSStringView>) -> Seq<u16> {
    strings.map_values(|s: VSStringView| s.header.length)
}

/// Records that fill the bytes from `cursor` up to `end` leave no gap: their
/// lengths, each rounded up to a multiple of four, lead from `cursor` to
/// `end` rounded up.
pub proof fn lemma_strings_fill(data: Seq<u8>, cursor: int, end: int)
    requires
        0 <= cursor,
        cursor % 4 == 0,
        strings_from(data, cursor, end) is Some,
    ensures
        strings_from(data, cursor, end)->0.len() == 0 ==> cursor >= end,
        strings_from(data, cursor, end)->0.len() > 0 ==> cursor + padded_lengths(
            string_lengths(strings_from(data, cursor, end)->0),
        ) == align4(end),
    decreases end + 4 - cursor,
{
    if cursor < end {
        let string = string_at(data, cursor)->0;
        let next = cursor + string.header.length;
        lemma_header_at(data, cursor);
        lemma_align4(next, end);
        lemma_align4(cursor, string.header.length as int);
        let rest = strings_from(data, align4(next), end)->0;
        let all = strings_from(data, cursor, end)->0;
        assert(all == seq![string] + rest);
        assert(string_lengths(all).drop_first() == string_lengths(rest));
        assert(string_lengths(all)[0] == string.header.length);
        lemma_strings_fill(data, align4(next), end);
        if rest.len() == 0 {
            assert(padded_lengths(string_lengths(rest)) == 0);
        }
    }
}

/// The lengths that the children of a table state, each rounded up to a
/// multiple of four, and the bytes before the first child add up to the
/// length that the table states, rounded up likewise.
pub proof fn lemma_string_table_lengths(data: Seq<u8>, base: int)
    requires
        string_table_at(data, base) is Some,
    ensures
        ({
            let table = string_table_at(data, base)->0;
            align4(table.header.length as int) == table.header.children_offset() + padded_lengths(
                string_lengths(table.children),
            )
        }),
{
    let table = string_table_at(data, base)->0;
    let header = table.header;
    lemma_header_at(data, base);
    lemma_align4(header.size(), header.length as int);
    lemma_align4(header.value_offset() + header.value_size(), header.length as int);
    lemma_align4(base, header.children_offset());
    lemma_align4(base, header.length as int);
    lemma_align4(header.length as int, header.children_offset());
    lemma_strings_fill(data, base + header.children_offset(), base + header.length);
    if table.children.len() == 0 {
        assert(padded_lengths(string_lengths(table.children)) == 0);
    }
}

/// Whether `key` is made of eight digits in base 16.
pub fn language_key(key: &[u16]) -> (r: bool)
    ensures
        r == is_language_key(key@),
{
    if key.len() != 8 {
        return false;
    }
    let mut i: usize = 0;
    while i < 8
        invariant
            i <= 8,
            key.len() == 8,
            forall|j: int| 0 <= j < i ==> is_hex_unit(#[trigger] key@[j]),
        decreases 8 - i,
    {
        let unit = key[i];
        let hex = (0x30 <= unit && unit <= 0x39) || (0x41 <= unit && unit <= 0x46) || (0x61 <= unit
            && unit <= 0x66);
        if !hex {
            return false;
        }
        i += 1;
    }
    true
}

/// Where the children of a record start, or `end` where there is no room for
/// any: `offset` is where the head of the record ends.
pub fn children_start(header: &VSHeader, base: usize, offset: usize, end: usize) -> (r: usize)
    requires
        base % 4 == 0,
        offset == base + header@.size(),
        end == base + header.length,
        header@.well_formed(),
    ensures
        r <= end,
        r < end ==> r == base + header@.children_offset(),
        r == end ==> base + header@.children_offset() >= end,
{
    let value_size = header.value_size();
    proof {
        lemma_align4(base as int, header@.size());
        lemma_align4(base as int, header@.value_offset() + header@.value_size());
        lemma_align4(header@.size(), 0);
    }
    let value_end: usize = if value_size == 0 {
        offset
    } else {
        offset + padding(offset) + value_size
    };
    let pad = padding(value_end);
    if end - value_end <= pad {
        end
    } else {
        value_end + pad
    }
}

/// Reads the records from `start` up to `end` as keys with their texts.
pub fn parse_strings(data: &[u8], start: usize, end: usize) -> (r: Result<Vec<VSString>, Error>)
    requires
        end <= data.len(),
    ensures
        match r {
            Ok(children) => strings_from(data@, start as int, end as int) == Some(
                string_views(children@),
            ),
            Err(e) => e == Error::MalformedVersionInfo && strings_from(
                data@,
                start as int,
                end as int,
            ) is None,
        },
{
    let mut children: Vec<VSString> = Vec::new();
    let mut cursor: usize = start;
    while cursor < end
        invariant
            end <= data.len(),
            match strings_from(data@, cursor as int, end as int) {
                Some(rest) => strings_from(data@, start as int, end as int) == Some(
                    string_views(children@) + rest,
                ),
                None => strings_from(data@, start as int, end as int) is None,
            },
        decreases end - cursor,
    {
        let child = match VSString::parse(data, cursor) {
            Ok(child) => child,
            Err(e) => {
                return Err(e);
            },
        };
        let length = child.header.length as usize;
        if length > end - cursor {
            return Err(Error::MalformedVersionInfo);
        }
        let next: usize = cursor + length;
        let pad = padding(next);
        proof {
            let rest = strings_from(data@, align4(next as int), end as int);
            assert(string_views(children@.push(child)) == string_views(children@).push(child@));
            if rest is Some {
                assert(string_views(children@).push(child@) + rest->0 == string_views(children@)
                    + (seq![child@] + rest->0));
            }
        }
        children.push(child);
        if end - next <= pad {
            cursor = end;
        } else {
            cursor = next + pad;
        }
    }
    assert(string_views(children@) + Seq::<VSStringView>::empty() == string_views(children@));
    Ok(children)
}

impl VSStringTable {
    /// Reads the record at `base_offset` as the texts of one language.
    pub fn parse(data: &[u8], base_offset: usize) -> (r: Result<VSStringTable, Error>)
        ensures
            match r {
                Ok(table) => string_table_at(data@, base_offset as int) == Some(table@),
                Err(e) => e == Error::MalformedVersionInfo && string_table_at(
                    data@,
                    base_offset as int,
                ) is None,
            },
    {
        let (offset, header) = match VSHeader::parse(data, base_offset) {
            Ok(parsed) => parsed,
            Err(e) => {
                return Err(e);
            },
        };
        if !language_key(header.key.as_slice()) {
            return Err(Error::MalformedVersionInfo);
        }
        let end: usize = base_offset + header.length as usize;
        let start = children_start(&header, base_offset, offset, end);
        let children = match parse_strings(data, start, end) {
            Ok(children) => children,
            Err(e) => {
                return Err(e);
            },
        };
        Ok(VSStringTable { header, children })
    }
}

} // verus!
