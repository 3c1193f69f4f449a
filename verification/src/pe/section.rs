//! From addresses in the loaded image to offsets in the file.

use crate::error::Error;
use vstd::prelude::*;

verus! {

/// What the section table says of one section.
#[derive(Clone, Copy, Debug, PartialEq, Eq, Structural)]
pub struct Section {
    /// The address of the section in the loaded image.
    pub virtual_address: u32,
    /// The size of the section in the loaded image.
    pub virtual_size: u32,
    /// The offset of the section in the file.
    pub pointer_to_raw_data: u32,
    /// The size of the section in the file.
    pub size_of_raw_data: u32,
}

/// The resource leaf: where the data lies in the loaded image, and its size.
#[derive(Clone, Copy, Debug, PartialEq, Eq, Structural)]
pub struct DataEntry {
    pub offset_to_data: u32,
    pub size: u32,
}

impl Section {
    /// The address lies in the section: at its start or after it, and before
    /// its end.
    pub open spec fn contains_rva(self, rva: u32) -> bool {
        self.virtual_address <= rva && rva - self.virtual_address < self.virtual_size
    }

    /// The offset in the file of an address in the section.
    pub open spec fn file_offset(self, rva: u32) -> int {
        rva - self.virtual_address + self.pointer_to_raw_data
    }

    /// Whether the address lies in the section.
    pub fn holds(&self, rva: u32) -> (r: bool)
        ensures
            r == self.contains_rva(rva),
    {
        self.virtual_address <= rva && rva - self.virtual_address < self.virtual_size
    }
}

/// The first section that contains the address.
pub open spec fn section_containing(sections: Seq<Section>, rva: u32) -> Option<Section>
    decreases sections.len(),
{
    if sections.len() == 0 {
        None
    } else if sections[0].contains_rva(rva) {
        Some(sections[0])
    } else {
        section_containing(sections.drop_first(), rva)
    }
}

/// Where the bytes of a leaf lie in a file of `file_size` bytes: the offset of
/// its address through the section that contains it.  There is no such place
/// where no section contains the address, or where the bytes would pass the
/// end of the file.
pub open spec fn leaf_offset(sections: Seq<Section>, leaf: DataEntry, file_size: int) -> Option<
    int,
> {
    match section_containing(sections, leaf.offset_to_data) {
        None => None,
        Some(section) => if section.file_offset(leaf.offset_to_data) + leaf.size <= file_size {
            Some(section.file_offset(leaf.offset_to_data))
        } else {
            None
        },
    }
}

/// The first section that contains the address.
pub fn find_section(sections: &[Section], rva: u32) -> (r: Option<Section>)
    ensures
        r == section_containing(sections@, rva),
        r matches Some(section) ==> section.contains_rva(rva),
{
    let mut i: usize = 0;
    assert(sections@.skip(0) == sections@);
    while i < sections.len()
        invariant
            i <= sections.len(),
            section_containing(sections@, rva) == section_containing(sections@.skip(i as int), rva),
        decreases sections.len() - i,
    {
        assert(sections@.skip(i as int)[0] == sections@[i as int]);
        assert(sections@.skip(i as int).drop_first() == sections@.skip(i + 1));
        if sections[i].holds(rva) {
            return Some(sections[i]);
        }
        i += 1;
    }
    None
}

/// Where the bytes of a leaf lie in a file of `file_size` bytes.  The range
/// that is returned lies within the file; a leaf that points elsewhere is
/// malformed.
pub fn leaf_range(sections: &[Section], leaf: DataEntry, file_size: usize) -> (r: Result<
    (usize, usize),
    Error,
>)
    ensures
        match r {
            Ok((offset, size)) => leaf_offset(sections@, leaf, file_size as int) == Some(
                offset as int,
            ) && size == leaf.size && offset + size <= file_size,
            Err(e) => e == Error::MalformedResource && leaf_offset(
                sections@,
                leaf,
                file_size as int,
            ) is None,
        },
{
    let section = match find_section(sections, leaf.offset_to_data) {
        Some(section) => section,
        None => {
            return Err(Error::MalformedResource);
        },
    };
    let offset: u64 = (leaf.offset_to_data - section.virtual_address) as u64
        + section.pointer_to_raw_data as u64;
    let end: u64 = offset + leaf.size as u64;
    if end > file_size as u64 {
        return Err(Error::MalformedResource);
    }
    Ok((offset as usize, leaf.size as usize))
}

} // verus!
