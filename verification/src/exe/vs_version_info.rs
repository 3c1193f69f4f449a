use crate::error::Error;
use crate::exe::utils::{align4, lemma_align4, padded_lengths, padding, spells, units_spell};
use crate::exe::vs_header::{header_at, lemma_header_at, VSHeader, VSHeaderView};
use crate::exe::vs_string_file_info::{
    string_file_info_at, VSStringFileInfo, VSStringFileInfoView,
};
use crate::exe::vs_string_table::{children_start, VSStringTable, VSStringTableView};
use crate::pe::image::{PeImage, PeImageView};
use crate::pe::resource::RT_VERSION;
use vstd::slice::slice_subrange;
use vstd::prelude::*;

verus! {

/// A child of the root of the version information.
pub enum VSChild {
    /// The record named `StringFileInfo`, with its tables of texts.
    StringFileInfo(VSStringFileInfo),
    /// The record named `VarFileInfo`; only its head is read.
    VarFileInfo(VSHeader),
}

/// What a `VSChild` holds.
pub enum VSChildView {
    StringFileInfo(VSStringFileInfoView),
    VarFileInfo(VSHeaderView),
}

impl View for VSChild {
    type V = VSChildView;

    open spec fn view(&self) -> VSChildView {
        match self {
            VSChild::StringFileInfo(info) => VSChildView::StringFileInfo(info@),
            VSChild::VarFileInfo(header) => VSChildView::VarFileInfo(header@),
        }
    }
}

impl VSChild {
    /// Whether the child is the record named `StringFileInfo`.
    pub fn is_strings(&self) -> (r: bool)
        ensures
            r == (self is StringFileInfo),
    {
        match self {
            VSChild::StringFileInfo(_) => true,
            VSChild::VarFileInfo(_) => false,
        }
    }
}

impl VSChildView {
    /// The head of the child.
    pub open spec fn header(self) -> VSHeaderView {
        match self {
            VSChildView::StringFileInfo(info) => info.header,
            VSChildView::VarFileInfo(header) => header,
        }
    }
}

/// The root of the version information: the record named `VS_VERSION_INFO`.
pub struct VSVersionInfo {
    pub header: VSHeader,
    /// The bytes of the value, which holds the numbers of the file version.
    pub value: Vec<u8>,
    pub children: Vec<VSChild>,
}

/// What a `VSVersionInfo` holds.
pub struct VSVersionInfoView {
    pub header: VSHeaderView,
    pub value: Seq<u8>,
    pub children: Seq<VSChildView>,
}

/// What each of `children` holds.
pub open spec fn child_views(children: Seq<VSChild>) -> Seq<VSChildView> {
    children.map_values(|c: VSChild| c@)
}

impl View for VSVersionInfo {
    type V = VSVersionInfoView;

    open spec fn view(&self) -> VSVersionInfoView {
        VSVersionInfoView {
            header: self.header@,
            value: self.value@,
            children: child_views(self.children@),
        }
    }
}

/// The length that each of `children` states.
pub open spec fn child_lengths(children: Seq<VSChildView>) -> Seq<u16> {
    children.map_values(|c: VSChildView| c.header().length)
}

/// The child of the root at `cursor`: its key says which of the two it is.
pub open spec fn child_at(data: Seq<u8>, cursor: int) -> Option<VSChildView> {
    match header_at(data, cursor) {
        None => None,
        Some(header) => if spells(header.key, "StringFileInfo"@) {
            match string_file_info_at(data, cursor) {
                Some(info) => Some(VSChildView::StringFileInfo(info)),
                None => None,
            }
        } else if spells(header.key, "VarFileInfo"@) {
            Some(VSChildView::VarFileInfo(header))
        } else {
            None
        },
    }
}

/// The children of the root that fill the bytes from `cursor` up to `end`,
/// each starting at the next multiple of four after the one before.
pub open spec fn children_from(data: Seq<u8>, cursor: int, end: int) -> Option<Seq<VSChildView>>
    decreases end + 4 - cursor,
    via children_from_terminates
{
    if cursor >= end {
        Some(Seq::empty())
    } else {
        match child_at(data, cursor) {
            None => None,
            Some(child) => if cursor + child.header().length > end {
                None
            } else {
                match children_from(data, align4(cursor + child.header().length), end) {
                    None => None,
                    Some(rest) => Some(seq![child] + rest),
                }
            },
        }
    }
}

#[via_fn]
proof fn children_from_terminates(data: Seq<u8>, cursor: int, end: int) {
    if child_at(data, cursor) is Some {
        lemma_header_at(data, cursor);
        lemma_align4(cursor + header_at(data, cursor)->0.length, 0);
    }
}

/// The version information at `base`: a record named `VS_VERSION_INFO` with
/// its value and its children.
pub open spec fn version_info_at(data: Seq<u8>, base: int) -> Option<VSVersionInfoView> {
    match header_at(data, base) {
        None => None,
        Some(header) => if !spells(header.key, "VS_VERSION_INFO"@) {
            None
        } else {
            match children_from(data, base + header.children_offset(), base + header.length) {
                None => None,
                Some(children) => Some(
                    VSVersionInfoView {
                        header,
                        value: if header.value_size() > 0 {
                            data.subrange(
                                base + header.value_offset(),
                                base + header.value_offset() + header.value_size(),
                            )
                        } else {
                            Seq::empty()
                        },
                        children,
                    },
                ),
            }
        },
    }
}

/// The first of `children` that is the record named `StringFileInfo`.
pub open spec fn first_string_file_info(children: Seq<VSChildView>) -> Option<
    VSStringFileInfoView,
>
    decreases children.len(),
{
    if children.len() == 0 {
        None
    } else {
        match children[0] {
            VSChildView::StringFileInfo(info) => Some(info),
            VSChildView::VarFileInfo(_) => first_string_file_info(children.drop_first()),
        }
    }
}

/// The first table of texts: the first table of the first record named
/// `StringFileInfo`.
pub open spec fn first_string_table(info: VSVersionInfoView) -> Option<VSStringTableView> {
    match first_string_file_info(info.children) {
        None => None,
        Some(strings) => if strings.children.len() == 0 {
            None
        } else {
            Some(strings.children[0])
        },
    }
}

/// The version information of an executable: the resource of the type for
/// versions, read from its own bytes.  An executable without that resource
/// has none; one whose resource cannot be read is malformed.
pub open spec fn version_info_in(pe: PeImageView, data: Seq<u8>) -> Result<
    Option<VSVersionInfoView>,
    Error,
> {
    match pe.resource_range(data.len() as int, RT_VERSION, None) {
        Err(e) => Err(e),
        Ok(None) => Ok(None),
        Ok(Some((offset, size))) => match version_info_at(
            data.subrange(offset, offset + size),
            0,
        ) {
            None => Err(Error::MalformedVersionInfo),
            Some(info) => Ok(Some(info)),
        },
    }
}

/// Children that fill the bytes from `cursor` up to `end` leave no gap.
pub proof fn lemma_children_fill(data: Seq<u8>, cursor: int, end: int)
    requires
        0 <= cursor,
        cursor % 4 == 0,
        children_from(data, cursor, end) is Some,
    ensures
        children_from(data, cursor, end)->0.len() == 0 ==> cursor >= end,
        children_from(data, cursor, end)->0.len() > 0 ==> cursor + padded_lengths(
            child_lengths(children_from(data, cursor, end)->0),
        ) == align4(end),
    decreases end + 4 - cursor,
{
    if cursor < end {
        let child = child_at(data, cursor)->0;
        let next = cursor + child.header().length;
        lemma_header_at(data, cursor);
        lemma_align4(next, end);
        lemma_align4(cursor, child.header().length as int);
        let rest = children_from(data, align4(next), end)->0;
        let all = children_from(data, cursor, end)->0;
        assert(all == seq![child] + rest);
        assert(child_lengths(all).drop_first() == child_lengths(rest));
        assert(child_lengths(all)[0] == child.header().length);
        lemma_children_fill(data, align4(next), end);
        if rest.len() == 0 {
            assert(padded_lengths(child_lengths(rest)) == 0);
        }
    }
}

/// The lengths that the children of the root state, each rounded up to a
/// multiple of four, and the bytes before the first child add up to the
/// length that the root states, rounded up likewise.
pub proof fn lemma_version_info_lengths(data: Seq<u8>, base: int)
    requires
        version_info_at(data, base) is Some,
    ensures
        ({
            let info = version_info_at(data, base)->0;
            align4(info.header.length as int) == info.header.children_offset() + padded_lengths(
                child_lengths(info.children),
            )
        }),
{
    let info = version_info_at(data, base)->0;
    let header = info.header;
    lemma_header_at(data, base);
    lemma_align4(header.size(), header.length as int);
    lemma_align4(header.value_offset() + header.value_size(), header.length as int);
    lemma_align4(base, header.children_offset());
    lemma_align4(base, header.length as int);
    lemma_align4(header.length as int, header.children_offset());
    lemma_children_fill(data, base + header.children_offset(), base + header.length);
    if info.children.len() == 0 {
        assert(padded_lengths(child_lengths(info.children)) == 0);
    }
}

/// Reads the child of the root at `cursor`.
pub fn parse_child(data: &[u8], cursor: usize) -> (r: Result<VSChild, Error>)
    ensures
        match r {
            Ok(child) => child_at(data@, cursor as int) == Some(child@),
            Err(e) => e == Error::MalformedVersionInfo && child_at(data@, cursor as int) is None,
        },
{
    let (_, header) = match VSHeader::parse(data, cursor) {
        Ok(parsed) => parsed,
        Err(e) => {
            return Err(e);
        },
    };
    if units_spell(header.key.as_slice(), "StringFileInfo") {
        match VSStringFileInfo::parse(data, cursor) {
            Ok(info) => Ok(VSChild::StringFileInfo(info)),
            Err(e) => Err(e),
        }
    } else if units_spell(header.key.as_slice(), "VarFileInfo") {
        Ok(VSChild::VarFileInfo(header))
    } else {
        Err(Error::MalformedVersionInfo)
    }
}

/// Reads the records from `start` up to `end` as children of the root.
pub fn parse_children(data: &[u8], start: usize, end: usize) -> (r: Result<Vec<VSChild>, Error>)
    requires
        end <= data.len(),
    ensures
        match r {
            Ok(children) => children_from(data@, start as int, end as int) == Some(
                child_views(children@),
            ),
            Err(e) => e == Error::MalformedVersionInfo && children_from(
                data@,
                start as int,
                end as int,
            ) is None,
        },
{
    let mut children: Vec<VSChild> = Vec::new();
    let mut cursor: usize = start;
    while cursor < end
        invariant
            end <= data.len(),
            match children_from(data@, cursor as int, end as int) {
                Some(rest) => children_from(data@, start as int, end as int) == Some(
                    child_views(children@) + rest,
                ),
                None => children_from(data@, start as int, end as int) is None,
            },
        decreases end - cursor,
    {
        let child = match parse_child(data, cursor) {
            Ok(child) => child,
            Err(e) => {
                return Err(e);
            },
        };
        let length = match &child {
            VSChild::StringFileInfo(info) => info.header.length as usize,
            VSChild::VarFileInfo(header) => header.length as usize,
        };
        if length > end - cursor {
            return Err(Error::MalformedVersionInfo);
        }
        let next: usize = cursor + length;
        let pad = padding(next);
        proof {
            let rest = children_from(data@, align4(next as int), end as int);
            assert(child_views(children@.push(child)) == child_views(children@).push(child@));
            if rest is Some {
                assert(child_views(children@).push(child@) + rest->0 == child_views(children@) + (
                seq![child@] + rest->0));
            }
        }
        children.push(child);
        if end - next <= pad {
            cursor = end;
        } else {
            cursor = next + pad;
        }
    }
    assert(child_views(children@) + Seq::<VSChildView>::empty() == child_views(children@));
    Ok(children)
}

impl VSVersionInfo {
    /// Reads the version information at `base_offset`.
    pub fn parse(data: &[u8], base_offset: usize) -> (r: Result<VSVersionInfo, Error>)
        ensures
            match r {
                Ok(info) => version_info_at(data@, base_offset as int) == Some(info@),
                Err(e) => e == Error::MalformedVersionInfo && version_info_at(
                    data@,
                    base_offset as int,
                ) is None,
            },
    {
        let (offset, header) = match VSHeader::parse(data, base_offset) {
            Ok(parsed) => parsed,
            Err(e) => {
                return Err(e);
            },
        };
        if !units_spell(header.key.as_slice(), "VS_VERSION_INFO") {
            return Err(Error::MalformedVersionInfo);
        }
        let end: usize = base_offset + header.length as usize;
        let start = children_start(&header, base_offset, offset, end);
        let children = match parse_children(data, start, end) {
            Ok(children) => children,
            Err(e) => {
                return Err(e);
            },
        };
        let value_size = header.value_size();
        proof {
            lemma_align4(base_offset as int, header@.size());
        }
        let mut value: Vec<u8> = Vec::new();
        if value_size > 0 {
            let from: usize = offset + padding(offset);
            let mut i: usize = 0;
            while i < value_size
                invariant
                    i <= value_size,
                    from + value_size <= data.len(),
                    value@ == data@.subrange(from as int, from + i),
                decreases value_size - i,
            {
                value.push(data[from + i]);
                i += 1;
            }
        }
        Ok(VSVersionInfo { header, value, children })
    }

    /// Reads the version information of an executable from the bytes of its
    /// file.
    pub fn find(pe: &PeImage, data: &[u8]) -> (r: Result<Option<VSVersionInfo>, Error>)
        ensures
            match r {
                Ok(Some(info)) => version_info_in(pe@, data@) == Ok::<_, Error>(Some(info@)),
                Ok(None) => version_info_in(pe@, data@) == Ok::<Option<VSVersionInfoView>, Error>(
                    None,
                ),
                Err(e) => version_info_in(pe@, data@) == Err::<Option<VSVersionInfoView>, _>(e),
            },
    {
        let (offset, size) = match pe.resource_range(data.len(), RT_VERSION, None) {
            Ok(Some(range)) => range,
            Ok(None) => {
                return Ok(None);
            },
            Err(e) => {
                return Err(e);
            },
        };
        match VSVersionInfo::parse(slice_subrange(data, offset, offset + size), 0) {
            Ok(info) => Ok(Some(info)),
            Err(e) => Err(e),
        }
    }

    /// The first table of texts.
    pub fn string_table(&self) -> (r: Option<&VSStringTable>)
        ensures
            match r {
                Some(table) => first_string_table(self@) == Some(table@),
                None => first_string_table(self@) is None,
            },
    {
        match self.string_file_info() {
            None => None,
            Some(strings) => if strings.children.len() == 0 {
                None
            } else {
                Some(&strings.children[0])
            },
        }
    }

    /// The first child that is the record named `StringFileInfo`.
    pub fn string_file_info(&self) -> (r: Option<&VSStringFileInfo>)
        ensures
            match r {
                Some(info) => first_string_file_info(self@.children) == Some(info@),
                None => first_string_file_info(self@.children) is None,
            },
    {
        let mut i: usize = 0;
        assert(self@.children.skip(0) == self@.children);
        while i < self.children.len()
            invariant
                i <= self.children.len(),
                first_string_file_info(self@.children) == first_string_file_info(
                    self@.children.skip(i as int),
                ),
            decreases self.children.len() - i,
        {
            assert(self@.children.skip(i as int)[0] == self.children@[i as int]@);
            assert(self@.children.skip(i as int).drop_first() == self@.children.skip(i + 1));
            if let VSChild::StringFileInfo(info) = &self.children[i] {
                return Some(info);
            }
            i += 1;
        }
        None
    }
}

} // verus!
