//! The tree of resources of a Portable Executable: types at the root, names
//! or numbers below a type, languages below a name, and a leaf below each
//! language.

use crate::error::Error;
use crate::pe::section::DataEntry;
use crate::text::{ascii_lowercase_of, chars_of, same_chars, to_ascii_lowercase};
use object::pe::ImageResourceDirectoryEntry;
use object::read::pe::{ResourceDirectory, ResourceDirectoryEntryData};
use object::{LittleEndian, U32};
use vstd::prelude::*;

verus! {

/// The number of the resource type that holds raw data.
pub const RT_RCDATA: u16 = 10;

/// The number of the resource type that holds the version information.
pub const RT_VERSION: u16 = 16;

/// The number of the resource type that holds the side-by-side manifest.
pub const RT_MANIFEST: u16 = 24;

/// One entry of a table of the resource directory, as its two numbers.
#[derive(Clone, Copy, Debug, PartialEq, Eq, Structural)]
pub struct ResourceEntry {
    /// The number of the entry, or with the highest bit set the offset of
    /// its name.
    pub name_or_id: u32,
    /// The offset of the leaf, or with the highest bit set the offset of the
    /// table below.
    pub offset_to_data_or_directory: u32,
}

impl ResourceEntry {
    /// The entry has a name in place of a number.
    pub open spec fn has_name(self) -> bool {
        self.name_or_id & 0x8000_0000 != 0
    }

    /// The number of the entry, where it has one.
    pub open spec fn id(self) -> Option<u16> {
        if self.has_name() {
            None
        } else {
            Some((self.name_or_id & 0xFFFF) as u16)
        }
    }

    /// The number of the entry, where it has one.
    pub fn number(&self) -> (r: Option<u16>)
        ensures
            r == self.id(),
    {
        if self.name_or_id & 0x8000_0000 != 0 {
            None
        } else {
            let raw: u32 = self.name_or_id;
            let low: u32 = raw & 0xFFFF;
            assert(low <= 0xFFFF) by (bit_vector)
                requires
                    low == raw & 0xFFFF,
            ;
            Some(low as u16)
        }
    }
}

/// What lies below an entry.
pub enum EntryData {
    /// A table of further entries.
    Table(Vec<ResourceEntry>),
    /// A leaf.
    Data(DataEntry),
    /// The offset of the entry leads out of the directory.
    Unreadable,
}

/// What an `EntryData` holds.
pub enum EntryDataView {
    Table(Seq<ResourceEntry>),
    Data(DataEntry),
    Unreadable,
}

impl View for EntryData {
    type V = EntryDataView;

    open spec fn view(&self) -> EntryDataView {
        match self {
            EntryData::Table(entries) => EntryDataView::Table(entries@),
            EntryData::Data(leaf) => EntryDataView::Data(*leaf),
            EntryData::Unreadable => EntryDataView::Unreadable,
        }
    }
}

/// The entries of the table at the root of a resource directory, as
/// `object::read::pe::ResourceDirectory::root` reads them from its bytes.
pub uninterp spec fn root_entries_of(directory: Seq<u8>) -> Option<Seq<ResourceEntry>>;

/// What lies below an entry, as
/// `object::pe::ImageResourceDirectoryEntry::data` reads it from the bytes
/// of the directory.
pub uninterp spec fn entry_data_of(directory: Seq<u8>, entry: ResourceEntry) -> EntryDataView;

/// The name of an entry, as `object::read::pe::ResourceName::to_string_lossy`
/// reads it from the bytes of the directory; none for an entry with a
/// number.
pub uninterp spec fn entry_name_of(directory: Seq<u8>, entry: ResourceEntry) -> Option<Seq<char>>;

/// Calls `object::read::pe::ResourceDirectory::root` on the bytes of a
/// directory and copies the two numbers of each entry.  The contract gives
/// the result a name.
#[verifier::external_body]
fn read_root(directory: &[u8]) -> (r: Option<Vec<ResourceEntry>>)
    ensures
        match r {
            Some(entries) => root_entries_of(directory@) == Some(entries@),
            None => root_entries_of(directory@) is None,
        },
{
    let table = ResourceDirectory::new(directory).root().ok()?;
    let entry = |e: &ImageResourceDirectoryEntry| ResourceEntry {
        name_or_id: e.name_or_id.get(LittleEndian),
        offset_to_data_or_directory: e.offset_to_data_or_directory.get(LittleEndian),
    };
    Some(table.entries.iter().map(entry).collect())
}

/// Calls `object::pe::ImageResourceDirectoryEntry::data` on an entry made of
/// the two numbers, and copies out the table or the leaf that it finds.  The
/// contract gives the result a name.
#[verifier::external_body]
fn read_entry_data(directory: &[u8], entry: ResourceEntry) -> (r: EntryData)
    ensures
        r@ == entry_data_of(directory@, entry),
{
    let raw = ImageResourceDirectoryEntry {
        name_or_id: U32::new(LittleEndian, entry.name_or_id),
        offset_to_data_or_directory: U32::new(LittleEndian, entry.offset_to_data_or_directory),
    };
    let pair = |e: &ImageResourceDirectoryEntry| ResourceEntry {
        name_or_id: e.name_or_id.get(LittleEndian),
        offset_to_data_or_directory: e.offset_to_data_or_directory.get(LittleEndian),
    };
    match raw.data(ResourceDirectory::new(directory)) {
        Ok(ResourceDirectoryEntryData::Table(t)) => EntryData::Table(t.entries.iter().map(pair).collect()),
        Ok(ResourceDirectoryEntryData::Data(d)) => EntryData::Data(DataEntry { offset_to_data: d.offset_to_data.get(LittleEndian), size: d.size.get(LittleEndian) }),
        Err(_) => EntryData::Unreadable,
    }
}

/// Calls `object::pe::ImageResourceDirectoryEntry::name_or_id` on an entry
/// made of the two numbers and, for a name,
/// `object::read::pe::ResourceName::to_string_lossy`.  The contract gives the
/// result a name.
#[verifier::external_body]
fn read_entry_name(directory: &[u8], entry: ResourceEntry) -> (r: Option<String>)
    ensures
        match r {
            Some(name) => entry_name_of(directory@, entry) == Some(name@),
            None => entry_name_of(directory@, entry) is None,
        },
{
    let raw = ImageResourceDirectoryEntry {
        name_or_id: U32::new(LittleEndian, entry.name_or_id),
        offset_to_data_or_directory: U32::new(LittleEndian, entry.offset_to_data_or_directory),
    };
    raw.name_or_id().name().and_then(|name| name.to_string_lossy(ResourceDirectory::new(directory)).ok())
}

/// The first of `entries` that has the number `id`.
pub open spec fn first_with_id(entries: Seq<ResourceEntry>, id: u16) -> Option<ResourceEntry>
    decreases entries.len(),
{
    if entries.len() == 0 {
        None
    } else if entries[0].id() == Some(id) {
        Some(entries[0])
    } else {
        first_with_id(entries.drop_first(), id)
    }
}

/// The entry has a name that, with its ASCII capitals in lower case, is
/// `name`.
pub open spec fn is_named(directory: Seq<u8>, entry: ResourceEntry, name: Seq<char>) -> bool {
    match entry_name_of(directory, entry) {
        Some(found) => ascii_lowercase_of(found) == name,
        None => false,
    }
}

/// The first of `entries` whose name, with its ASCII capitals in lower case,
/// is `name`.
pub open spec fn first_with_name(
    directory: Seq<u8>,
    entries: Seq<ResourceEntry>,
    name: Seq<char>,
) -> Option<ResourceEntry>
    decreases entries.len(),
{
    if entries.len() == 0 {
        None
    } else if is_named(directory, entries[0], name) {
        Some(entries[0])
    } else {
        first_with_name(directory, entries.drop_first(), name)
    }
}

/// The entry that a lookup takes below a type: the first with the given
/// name, or the first of all where no name is given.
pub open spec fn selected(
    directory: Seq<u8>,
    entries: Seq<ResourceEntry>,
    name: Option<Seq<char>>,
) -> Option<ResourceEntry> {
    match name {
        Some(name) => first_with_name(directory, entries, name),
        None => if entries.len() == 0 {
            None
        } else {
            Some(entries[0])
        },
    }
}

/// The entries below the type with the number `type_id`.  There are none
/// where the root has no such type or where a leaf stands in place of the
/// table; a table that cannot be read is an error.
pub open spec fn entries_of_type(directory: Seq<u8>, type_id: u16) -> Result<
    Option<Seq<ResourceEntry>>,
    Error,
> {
    match root_entries_of(directory) {
        None => Err(Error::MalformedResource),
        Some(root) => match first_with_id(root, type_id) {
            None => Ok(None),
            Some(type_entry) => match entry_data_of(directory, type_entry) {
                EntryDataView::Unreadable => Err(Error::MalformedResource),
                EntryDataView::Data(_) => Ok(None),
                EntryDataView::Table(entries) => Ok(Some(entries)),
            },
        },
    }
}

/// The leaf at the third level below `entry`, which stands at the second:
/// the leaf of the first language.  There is none where a level is missing
/// or where the tree goes deeper; a table that cannot be read is an error.
pub open spec fn leaf_below(directory: Seq<u8>, entry: ResourceEntry) -> Result<
    Option<DataEntry>,
    Error,
> {
    match entry_data_of(directory, entry) {
        EntryDataView::Unreadable => Err(Error::MalformedResource),
        EntryDataView::Data(_) => Ok(None),
        EntryDataView::Table(languages) => if languages.len() == 0 {
            Ok(None)
        } else {
            match entry_data_of(directory, languages[0]) {
                EntryDataView::Unreadable => Err(Error::MalformedResource),
                EntryDataView::Table(_) => Ok(None),
                EntryDataView::Data(leaf) => Ok(Some(leaf)),
            }
        },
    }
}

/// The leaf of the resource of the given type and, where one is given, the
/// given name in lower case: type, name, first language, leaf.
pub open spec fn leaf_of(directory: Seq<u8>, type_id: u16, name: Option<Seq<char>>) -> Result<
    Option<DataEntry>,
    Error,
> {
    match entries_of_type(directory, type_id) {
        Err(e) => Err(e),
        Ok(None) => Ok(None),
        Ok(Some(entries)) => match selected(directory, entries, name) {
            None => Ok(None),
            Some(entry) => leaf_below(directory, entry),
        },
    }
}

/// The first of `entries` that has the number `id`.
pub fn find_by_id(entries: &[ResourceEntry], id: u16) -> (r: Option<ResourceEntry>)
    ensures
        r == first_with_id(entries@, id),
{
    let mut i: usize = 0;
    assert(entries@.skip(0) == entries@);
    while i < entries.len()
        invariant
            i <= entries.len(),
            first_with_id(entries@, id) == first_with_id(entries@.skip(i as int), id),
        decreases entries.len() - i,
    {
        assert(entries@.skip(i as int)[0] == entries@[i as int]);
        assert(entries@.skip(i as int).drop_first() == entries@.skip(i + 1));
        match entries[i].number() {
            Some(number) => {
                if number == id {
                    return Some(entries[i]);
                }
            },
            None => {},
        }
        i += 1;
    }
    None
}

/// Whether the entry has a name that, with its ASCII capitals in lower case,
/// is `name`.
pub fn named(directory: &[u8], entry: ResourceEntry, name: &[char]) -> (r: bool)
    ensures
        r == is_named(directory@, entry, name@),
{
    match read_entry_name(directory, entry) {
        Some(found) => {
            let chars = chars_of(found.as_str());
            let lower = to_ascii_lowercase(chars.as_slice());
            same_chars(lower.as_slice(), name)
        },
        None => false,
    }
}

/// The first of `entries` whose name, with its ASCII capitals in lower case,
/// is `name`.
pub fn find_by_name(directory: &[u8], entries: &[ResourceEntry], name: &[char]) -> (r: Option<
    ResourceEntry,
>)
    ensures
        r == first_with_name(directory@, entries@, name@),
{
    let mut i: usize = 0;
    assert(entries@.skip(0) == entries@);
    while i < entries.len()
        invariant
            i <= entries.len(),
            first_with_name(directory@, entries@, name@) == first_with_name(
                directory@,
                entries@.skip(i as int),
                name@,
            ),
        decreases entries.len() - i,
    {
        assert(entries@.skip(i as int)[0] == entries@[i as int]);
        assert(entries@.skip(i as int).drop_first() == entries@.skip(i + 1));
        if named(directory, entries[i], name) {
            return Some(entries[i]);
        }
        i += 1;
    }
    None
}

/// The entries below the type with the number `type_id`.
pub fn find_type(directory: &[u8], type_id: u16) -> (r: Result<Option<Vec<ResourceEntry>>, Error>)
    ensures
        match r {
            Ok(Some(entries)) => entries_of_type(directory@, type_id) == Ok::<_, Error>(
                Some(entries@),
            ),
            Ok(None) => entries_of_type(directory@, type_id) == Ok::<
                Option<Seq<ResourceEntry>>,
                Error,
            >(None),
            Err(e) => entries_of_type(directory@, type_id) == Err::<Option<Seq<ResourceEntry>>, _>(
                e,
            ),
        },
{
    let root = match read_root(directory) {
        Some(root) => root,
        None => {
            return Err(Error::MalformedResource);
        },
    };
    let type_entry = match find_by_id(root.as_slice(), type_id) {
        Some(entry) => entry,
        None => {
            return Ok(None);
        },
    };
    match read_entry_data(directory, type_entry) {
        EntryData::Unreadable => Err(Error::MalformedResource),
        EntryData::Data(_) => Ok(None),
        EntryData::Table(entries) => Ok(Some(entries)),
    }
}

/// The leaf at the third level below `entry`, which stands at the second.
pub fn find_leaf_below(directory: &[u8], entry: ResourceEntry) -> (r: Result<
    Option<DataEntry>,
    Error,
>)
    ensures
        r == leaf_below(directory@, entry),
{
    match read_entry_data(directory, entry) {
        EntryData::Unreadable => Err(Error::MalformedResource),
        EntryData::Data(_) => Ok(None),
        EntryData::Table(languages) => {
            if languages.len() == 0 {
                Ok(None)
            } else {
                match read_entry_data(directory, languages[0]) {
                    EntryData::Unreadable => Err(Error::MalformedResource),
                    EntryData::Table(_) => Ok(None),
                    EntryData::Data(leaf) => Ok(Some(leaf)),
                }
            }
        },
    }
}

/// The leaf of the resource of the given type and, where one is given, the
/// given name in lower case.
pub fn find_leaf(directory: &[u8], type_id: u16, name: Option<&str>) -> (r: Result<
    Option<DataEntry>,
    Error,
>)
    ensures
        r == leaf_of(
            directory@,
            type_id,
            match name {
                Some(name) => Some(name@),
                None => None,
            },
        ),
{
    let entries = match find_type(directory, type_id) {
        Ok(Some(entries)) => entries,
        Ok(None) => {
            return Ok(None);
        },
        Err(e) => {
            return Err(e);
        },
    };
    let entry = match name {
        Some(name) => {
            let name = chars_of(name);
            find_by_name(directory, entries.as_slice(), name.as_slice())
        },
        None => if entries.len() == 0 {
            None
        } else {
            Some(entries[0])
        },
    };
    match entry {
        None => Ok(None),
        Some(entry) => find_leaf_below(directory, entry),
    }
}

} // verus!
