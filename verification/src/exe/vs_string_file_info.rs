use crate::error::Error;
use crate::exe::utils::{align4, lemma_align4, padded_lengths, padding, spells, units_spell};
use crate::exe::vs_header::{header_at, lemma_header_at, VSHeader, VSHeaderView};
use crate::exe::vs_string_table::{
    children_start, string_table_at, VSStringTable, VSStringTableView,
};
use vstd::prelude::*;

verus! {

/// The record named `StringFileInfo`: one table of texts for each language.
pub struct VSStringFileInfo {
    pub header: VSHeader,
    pub children: Vec<VSStringTable>,
}

/// What a `VSStringFileInfo` holds.
pub struct VSStringFileInfoView {
    pub header: VSHeaderView,
    pub children: Seq<VSStringTableView>,
}

/// What each of `tables` holds.
pub open spec fn table_views(tables: Seq<VSStringTable>) -> Seq<VSStringTableView> {
    tables.map_values(|t: VSStringTable| t@)
}

impl View for VSStringFileInfo {
    type V = VSStringFileInfoView;

    open spec fn view(&self) -> VSStringFileInfoView {
        VSStringFileInfoView { header: self.header@, children: table_views(self.children@) }
    }
}

/// The length that each of `tables` states.
pub open spec fn table_lengths(tables: Seq<VSStringTableView>) -> Seq<u16> {
    tables.map_values(|t: VSStringTableView| t.header.length)
}

/// The records that fill the bytes from `cursor` up to `end`, each read as
/// the texts of one language and each starting at the next multiple of four
/// after the one before.
pub open spec fn tables_from(data: Seq<u8>, cursor: int, end: int) -> Option<
    Seq<VSStringTableView>,
>
    decreases end + 4 - cursor,
    via tables_from_terminates
{
    if cursor >= end {
        Some(Seq::empty())
    } else {
        match string_table_at(data, cursor) {
            None => None,
            Some(table) => if cursor + table.header.length > end {
                None
            } else {
                match tables_from(data, align4(cursor + table.header.length), end) {
                    None => None,
                    Some(rest) => Some(seq![table] + rest),
                }
            },
        }
    }
}

#[via_fn]
proof fn tables_from_terminates(data: Seq<u8>, cursor: int, end: int) {
    if string_table_at(data, cursor) is Some {
        lemma_header_at(data, cursor);
        lemma_align4(cursor + header_at(data, cursor)->0.length, 0);
    }
}

/// The record at `base`, read as the record named `StringFileInfo`.
pub open spec fn string_file_info_at(data: Seq<u8>, base: int) -> Option<VSStringFileInfoView> {
    match header_at(data, base) {
        None => None,
        Some(header) => if !spells(header.key, "StringFileInfo"@) {
            None
        } else {
            match tables_from(data, base + header.children_offset(), base + header.length) {
                None => None,
                Some(children) => Some(VSStringFileInfoView { header, children }),
            }
        },
    }
}

/// Tables that fill the bytes from `cursor` up to `end` leave no gap.
pub proof fn lemma_tables_fill(data: Seq<u8>, cursor: int, end: int)
    requires
        0 <= cursor,
        cursor % 4 == 0,
        tables_from(data, cursor, end) is Some,
    ensures
        tables_from(data, cursor, end)->0.len() == 0 ==> cursor >= end,
        tables_from(data, cursor, end)->0.len() > 0 ==> cursor + padded_lengths(
            table_lengths(tables_from(data, cursor, end)->0),
        ) == align4(end),
    decreases end + 4 - cursor,
{
    if cursor < end {
        let table = string_table_at(data, cursor)->0;
        let next = cursor + table.header.length;
        lemma_header_at(data, cursor);
        lemma_align4(next, end);
        lemma_align4(cursor, table.header.length as int);
        let rest = tables_from(data, align4(next), end)->0;
        let all = tables_from(data, cursor, end)->0;
        assert(all == seq![table] + rest);
        assert(table_lengths(all).drop_first() == table_lengths(rest));
        assert(table_lengths(all)[0] == table.header.length);
        lemma_tables_fill(data, align4(next), end);
        if rest.len() == 0 {
            assert(padded_lengths(table_lengths(rest)) == 0);
        }
    }
}

/// The lengths that the tables state, each rounded up to a multiple of four,
/// and the bytes before the first table add up to the length that the record
/// states, rounded up likewise.
pub proof fn lemma_string_file_info_lengths(data: Seq<u8>, base: int)
    requires
        string_file_info_at(data, base) is Some,
    ensures
        ({
            let info = string_file_info_at(data, base)->0;
            align4(info.header.length as int) == info.header.children_offset() + padded_lengths(
                table_lengths(info.children),
            )
        }),
{
    let info = string_file_info_at(data, base)->0;
    let header = info.header;
    lemma_header_at(data, base);
    lemma_align4(header.size(), header.length as int);
    lemma_align4(header.value_offset() + header.value_size(), header.length as int);
    lemma_align4(base, header.children_offset());
    lemma_align4(base, header.length as int);
    lemma_align4(header.length as int, header.children_offset());
    lemma_tables_fill(data, base + header.children_offset(), base + header.length);
    if info.children.len() == 0 {
        assert(padded_lengths(table_lengths(info.children)) == 0);
    }
}

/// Reads the records from `start` up to `end` as tables of texts.
pub fn parse_tables(data: &[u8], start: usize, end: usize) -> (r: Result<Vec<VSStringTable>, Error>)
    requires
        end <= data.len(),
    ensures
        match r {
            Ok(children) => tables_from(data@, start as int, end as int) == Some(
                table_views(children@),
            ),
            Err(e) => e == Error::MalformedVersionInfo && tables_from(
                data@,
                start as int,
                end as int,
            ) is None,
        },
{
    let mut children: Vec<VSStringTable> = Vec::new();
    let mut cursor: usize = start;
    while cursor < end
        invariant
            end <= data.len(),
            match tables_from(data@, cursor as int, end as int) {
                Some(rest) => tables_from(data@, start as int, end as int) == Some(
                    table_views(children@) + rest,
                ),
                None => tables_from(data@, start as int, end as int) is None,
            },
        decreases end - cursor,
    {
        let child = match VSStringTable::parse(data, cursor) {
            Ok(child) => child,
            Err(e) => {
                return Err(e);
            },
        };
        let length = child.header.length as usize;
        if length > end - cursor {
            return Err(Error::MalformedVersionInfo);
        }
        let next: usize = cursor + length;
        let pad = padding(next);
        proof {
            let rest = tables_from(data@, align4(next as int), end as int);
            assert(table_views(children@.push(child)) == table_views(children@).push(child@));
            if rest is Some {
                assert(table_views(children@).push(child@) + rest->0 == table_views(children@) + (
                seq![child@] + rest->0));
            }
        }
        children.push(child);
        if end - next <= pad {
            cursor = end;
        } else {
            cursor = next + pad;
        }
    }
    assert(table_views(children@) + Seq::<VSStringTableView>::empty() == table_views(children@));
    Ok(children)
}

impl VSStringFileInfo {
    /// Reads the record at `base_offset` as the record named
    /// `StringFileInfo`.
    pub fn parse(data: &[u8], base_offset: usize) -> (r: Result<VSStringFileInfo, Error>)
        ensures
            match r {
                Ok(info) => string_file_info_at(data@, base_offset as int) == Some(info@),
                Err(e) => e == Error::MalformedVersionInfo && string_file_info_at(
                    data@,
                    base_offset as int,
                ) is None,
            },
    {
        let (offset, header) = match VSHeader::parse(data, base_offset) {
            Ok(parsed) => parsed,
            Err(e) => {
                return Err(e);
            },
        };
        if !units_spell(header.key.as_slice(), "StringFileInfo") {
            return Err(Error::MalformedVersionInfo);
        }
        let end: usize = base_offset + header.length as usize;
        let start = children_start(&header, base_offset, offset, end);
        let children = match parse_tables(data, start, end) {
            Ok(children) => children,
            Err(e) => {
                return Err(e);
            },
        };
        Ok(VSStringFileInfo { header, children })
    }
}

} // verus!
