//! The parts of a Portable Executable that the analysis reads.

use crate::error::Error;
use crate::pe::resource::{find_leaf, leaf_of};
use crate::pe::section::{leaf_offset, leaf_range, DataEntry, Section};
use object::read::pe::{ImageNtHeaders, PeFile32, PeFile64};
use object::{FileKind, LittleEndian};
use vstd::prelude::*;

verus! {

/// The two layouts of a Portable Executable.
#[derive(Clone, Copy, Debug, PartialEq, Eq, Structural)]
pub enum PeKind {
    /// The 32-bit layout, `PE32`.
    Pe32,
    /// The 64-bit layout, `PE32+`.
    Pe64,
}

/// The bytes of the resource directory, as far as the image has one.
pub enum ResourceData {
    /// The image names no resource directory.
    Missing,
    /// The image names one that does not lie within the file.
    Unreadable,
    /// The bytes of the directory.
    Bytes(Vec<u8>),
}

/// What a `ResourceData` holds.
pub enum ResourceDataView {
    Missing,
    Unreadable,
    Bytes(Seq<u8>),
}

impl View for ResourceData {
    type V = ResourceDataView;

    open spec fn view(&self) -> ResourceDataView {
        match self {
            ResourceData::Missing => ResourceDataView::Missing,
            ResourceData::Unreadable => ResourceDataView::Unreadable,
            ResourceData::Bytes(bytes) => ResourceDataView::Bytes(bytes@),
        }
    }
}

/// A Portable Executable: which layout it has, the machine it is built for,
/// its sections and its resource directory.
pub struct PeImage {
    pub kind: PeKind,
    pub machine: u16,
    pub sections: Vec<Section>,
    pub resources: ResourceData,
}

/// What a `PeImage` holds.
pub struct PeImageView {
    pub kind: PeKind,
    pub machine: u16,
    pub sections: Seq<Section>,
    pub resources: ResourceDataView,
}

impl View for PeImage {
    type V = PeImageView;

    open spec fn view(&self) -> PeImageView {
        PeImageView {
            kind: self.kind,
            machine: self.machine,
            sections: self.sections@,
            resources: self.resources@,
        }
    }
}

/// The layout that `object::FileKind::parse` finds in the bytes of a file,
/// where it is one of the two of a Portable Executable.
pub uninterp spec fn pe_kind_of(data: Seq<u8>) -> Option<PeKind>;

/// The parts of an image that the analysis reads.
pub struct PeParts {
    pub machine: u16,
    pub sections: Seq<Section>,
    pub resources: ResourceDataView,
}

/// What `object::read::pe::PeFile::parse` finds in the bytes of a file for
/// the given layout: the machine that the file header names, the section
/// table, and the resource directory.  There is nothing where it rejects the
/// bytes.
pub uninterp spec fn pe_file_of(data: Seq<u8>, kind: PeKind) -> Option<PeParts>;

/// Calls `object::FileKind::parse` and keeps the two kinds that stand for a
/// Portable Executable.  The contract gives the result a name.
#[verifier::external_body]
fn read_kind(data: &[u8]) -> (r: Option<PeKind>)
    ensures
        r == pe_kind_of(data@),
{
    match FileKind::parse(data) {
        Ok(FileKind::Pe32) => Some(PeKind::Pe32),
        Ok(FileKind::Pe64) => Some(PeKind::Pe64),
        _ => None,
    }
}

/// Calls `object::read::pe::PeFile::parse` for the given layout and reads the
/// machine from the file header.  The contract names what `parse` finds, and
/// says that this is the first part of it.
#[verifier::external_body]
fn read_machine(data: &[u8], kind: PeKind) -> (r: Option<u16>)
    ensures
        match r {
            Some(machine) => pe_file_of(data@, kind) is Some && pe_file_of(
                data@,
                kind,
            )->0.machine == machine,
            None => pe_file_of(data@, kind) is None,
        },
{
    Some(
        match kind {
            PeKind::Pe32 => PeFile32::parse(data).ok()?.nt_headers().file_header().machine,
            PeKind::Pe64 => PeFile64::parse(data).ok()?.nt_headers().file_header().machine,
        }.get(LittleEndian),
    )
}

/// Calls `object::read::pe::PeFile::parse` for the given layout and copies
/// four numbers out of each header of `section_table`.  The contract names
/// what `parse` finds, and says that this is the second part of it.
#[verifier::external_body]
fn read_sections(data: &[u8], kind: PeKind) -> (r: Option<Vec<Section>>)
    ensures
        match r {
            Some(sections) => pe_file_of(data@, kind) is Some && pe_file_of(
                data@,
                kind,
            )->0.sections == sections@,
            None => pe_file_of(data@, kind) is None,
        },
{
    let table = match kind {
        PeKind::Pe32 => PeFile32::parse(data).ok()?.section_table(),
        PeKind::Pe64 => PeFile64::parse(data).ok()?.section_table(),
    };
    let section = |s: &object::pe::ImageSectionHeader| Section {
        virtual_address: s.virtual_address.get(LittleEndian),
        virtual_size: s.virtual_size.get(LittleEndian),
        pointer_to_raw_data: s.pointer_to_raw_data.get(LittleEndian),
        size_of_raw_data: s.size_of_raw_data.get(LittleEndian),
    };
    Some(table.iter().map(section).collect())
}

/// Calls `object::read::pe::PeFile::parse` for the given layout, then
/// `DataDirectories::get` for the resource directory and
/// `ImageDataDirectory::data` for its bytes, as
/// `DataDirectories::resource_directory` does.  The contract names what
/// `parse` finds, and says that this is the third part of it.
#[verifier::external_body]
fn read_resources(data: &[u8], kind: PeKind) -> (r: Option<ResourceData>)
    ensures
        match r {
            Some(resources) => pe_file_of(data@, kind) is Some && pe_file_of(
                data@,
                kind,
            )->0.resources == resources@,
            None => pe_file_of(data@, kind) is None,
        },
{
    let (sections, directories) = match kind {
        PeKind::Pe32 => PeFile32::parse(data).map(|pe| (pe.section_table(), pe.data_directories())),
        PeKind::Pe64 => PeFile64::parse(data).map(|pe| (pe.section_table(), pe.data_directories())),
    }.ok()?;
    let directory = directories.get(object::pe::IMAGE_DIRECTORY_ENTRY_RESOURCE);
    Some(match directory.map(|directory| directory.data(data, &sections)) {
        None => ResourceData::Missing,
        Some(Ok(bytes)) => ResourceData::Bytes(bytes.to_vec()),
        Some(Err(_)) => ResourceData::Unreadable,
    })
}

/// The image that the bytes of a file hold: none where the bytes do not
/// start as a Portable Executable does, and an error where they do but
/// cannot be read as one.
pub open spec fn pe_image_of(data: Seq<u8>) -> Result<Option<PeImageView>, Error> {
    match pe_kind_of(data) {
        None => Ok(None),
        Some(kind) => match pe_file_of(data, kind) {
            Some(parts) => Ok(
                Some(
                    PeImageView {
                        kind,
                        machine: parts.machine,
                        sections: parts.sections,
                        resources: parts.resources,
                    },
                ),
            ),
            None => Err(Error::MalformedPE),
        },
    }
}

impl PeImageView {
    /// The leaf of the resource of the given type and, where one is given,
    /// the given name in lower case.  An image without resources has none.
    pub open spec fn leaf(self, type_id: u16, name: Option<Seq<char>>) -> Result<
        Option<DataEntry>,
        Error,
    > {
        match self.resources {
            ResourceDataView::Missing => Ok(None),
            ResourceDataView::Unreadable => Err(Error::MalformedResource),
            ResourceDataView::Bytes(directory) => leaf_of(directory, type_id, name),
        }
    }

    /// Where the bytes of that resource lie in a file of `file_size` bytes:
    /// the offset and the size.  A leaf whose bytes do not lie within the
    /// file is malformed.
    pub open spec fn resource_range(
        self,
        file_size: int,
        type_id: u16,
        name: Option<Seq<char>>,
    ) -> Result<Option<(int, int)>, Error> {
        match self.leaf(type_id, name) {
            Err(e) => Err(e),
            Ok(None) => Ok(None),
            Ok(Some(leaf)) => match leaf_offset(self.sections, leaf, file_size) {
                None => Err(Error::MalformedResource),
                Some(offset) => Ok(Some((offset, leaf.size as int))),
            },
        }
    }
}

impl PeImage {
    /// Where the bytes of a resource lie in a file of `file_size` bytes.
    /// The range that is returned lies within the file.
    pub fn resource_range(&self, file_size: usize, type_id: u16, name: Option<&str>) -> (r: Result<
        Option<(usize, usize)>,
        Error,
    >)
        ensures
            match r {
                Ok(Some((offset, size))) => self@.resource_range(
                    file_size as int,
                    type_id,
                    match name {
                        Some(name) => Some(name@),
                        None => None,
                    },
                ) == Ok::<_, Error>(Some((offset as int, size as int))) && offset + size
                    <= file_size,
                Ok(None) => self@.resource_range(
                    file_size as int,
                    type_id,
                    match name {
                        Some(name) => Some(name@),
                        None => None,
                    },
                ) == Ok::<Option<(int, int)>, Error>(None),
                Err(e) => self@.resource_range(
                    file_size as int,
                    type_id,
                    match name {
                        Some(name) => Some(name@),
                        None => None,
                    },
                ) == Err::<Option<(int, int)>, _>(e),
            },
    {
        let directory = match &self.resources {
            ResourceData::Missing => {
                return Ok(None);
            },
            ResourceData::Unreadable => {
                return Err(Error::MalformedResource);
            },
            ResourceData::Bytes(directory) => directory,
        };
        let leaf = match find_leaf(directory.as_slice(), type_id, name) {
            Ok(Some(leaf)) => leaf,
            Ok(None) => {
                return Ok(None);
            },
            Err(e) => {
                return Err(e);
            },
        };
        match leaf_range(self.sections.as_slice(), leaf, file_size) {
            Ok(range) => Ok(Some(range)),
            Err(e) => Err(e),
        }
    }

    /// Reads the bytes of a file as a Portable Executable.
    pub fn parse(data: &[u8]) -> (r: Result<Option<PeImage>, Error>)
        ensures
            match r {
                Ok(Some(image)) => pe_image_of(data@) == Ok::<_, Error>(Some(image@)),
                Ok(None) => pe_image_of(data@) == Ok::<Option<PeImageView>, Error>(None),
                Err(e) => pe_image_of(data@) == Err::<Option<PeImageView>, _>(e),
            },
    {
        let kind = match read_kind(data) {
            Some(kind) => kind,
            None => {
                return Ok(None);
            },
        };
        let machine = read_machine(data, kind);
        let sections = read_sections(data, kind);
        let resources = read_resources(data, kind);
        match (machine, sections, resources) {
            (Some(machine), Some(sections), Some(resources)) => Ok(
                Some(PeImage { kind, machine, sections, resources }),
            ),
            _ => Err(Error::MalformedPE),
        }
    }
}

} // verus!
