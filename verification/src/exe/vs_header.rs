use crate::error::Error;
use crate::exe::utils::{
    align4, get_widestring_size, padding, padding4, read_u16, read_units, u16_at, units_at,
    widestring_len,
};
use vstd::prelude::*;

verus! {

/// The head that every record of the version information starts with.
pub struct VSHeader {
    /// The bytes that the record takes, its children included.
    pub length: u16,
    /// The size of the value: in code units for a text, in bytes otherwise.
    pub value_length: u16,
    /// One for a value that is a text, zero for a binary value.
    pub type_: u16,
    /// The key of the record, without the zero that ends it.
    pub key: Vec<u16>,
}

/// What a `VSHeader` holds.
pub struct VSHeaderView {
    pub length: u16,
    pub value_length: u16,
    pub type_: u16,
    pub key: Seq<u16>,
}

impl View for VSHeader {
    type V = VSHeaderView;

    open spec fn view(&self) -> VSHeaderView {
        VSHeaderView {
            length: self.length,
            value_length: self.value_length,
            type_: self.type_,
            key: self.key@,
        }
    }
}

impl VSHeaderView {
    /// The bytes that the head takes: three numbers, the key and its zero.
    pub open spec fn size(self) -> int {
        8 + 2 * (self.key.len() as int)
    }

    /// The bytes that the value takes.
    pub open spec fn value_size(self) -> int {
        if self.type_ == 1 {
            2 * (self.value_length as int)
        } else {
            self.value_length as int
        }
    }

    /// Where the value starts, counted from the start of the record.
    pub open spec fn value_offset(self) -> int {
        align4(self.size())
    }

    /// Where the children start, counted from the start of the record.
    pub open spec fn children_offset(self) -> int {
        align4(self.value_offset() + self.value_size())
    }

    /// The head and the value lie within the length that the record states.
    pub open spec fn well_formed(self) -> bool {
        &&& self.size() <= self.length
        &&& self.value_size() > 0 ==> self.value_offset() + self.value_size() <= self.length
    }
}

/// The head of the record at `base`.  There is none where `base` is not a
/// multiple of four, where the record does not lie within `data`, where no
/// zero ends the key within the record, or where the value does not fit.
pub open spec fn header_at(data: Seq<u8>, base: int) -> Option<VSHeaderView> {
    if base < 0 || base % 4 != 0 || base + 6 > data.len() || base + u16_at(data, base)
        > data.len() {
        None
    } else {
        match widestring_len(data, base + 6, base + u16_at(data, base)) {
            None => None,
            Some(n) => {
                let header = VSHeaderView {
                    length: u16_at(data, base),
                    value_length: u16_at(data, base + 2),
                    type_: u16_at(data, base + 4),
                    key: units_at(data, base + 6, n),
                };
                if header.well_formed() {
                    Some(header)
                } else {
                    None
                }
            },
        }
    }
}

/// A head that can be read starts at a multiple of four, lies within the
/// bytes, and takes eight bytes at least.
pub proof fn lemma_header_at(data: Seq<u8>, base: int)
    requires
        header_at(data, base) is Some,
    ensures
        0 <= base,
        base % 4 == 0,
        base + header_at(data, base)->0.length <= data.len(),
        header_at(data, base)->0.well_formed(),
        header_at(data, base)->0.length >= 8,
{
}

impl VSHeader {
    /// Reads the head of the record at `base_offset`, and returns with it the
    /// offset right after the key.
    pub fn parse(data: &[u8], base_offset: usize) -> (r: Result<(usize, VSHeader), Error>)
        ensures
            match r {
                Ok((offset, header)) => header_at(data@, base_offset as int) == Some(header@)
                    && offset == base_offset + header@.size() && base_offset % 4 == 0
                    && base_offset + header.length <= data.len() && header@.well_formed(),
                Err(e) => e == Error::MalformedVersionInfo && header_at(data@, base_offset as int)
                    is None,
            },
    {
        if base_offset % 4 != 0 || data.len() < 6 || base_offset > data.len() - 6 {
            return Err(Error::MalformedVersionInfo);
        }
        let length = read_u16(data, base_offset);
        let value_length = read_u16(data, base_offset + 2);
        let type_ = read_u16(data, base_offset + 4);
        if length as usize > data.len() - base_offset {
            return Err(Error::MalformedVersionInfo);
        }
        let end: usize = base_offset + length as usize;
        let n = match get_widestring_size(data, base_offset + 6, end) {
            Some(n) => n,
            None => {
                return Err(Error::MalformedVersionInfo);
            },
        };
        let key = read_units(data, base_offset + 6, n);
        let offset: usize = base_offset + 8 + 2 * n;
        let header = VSHeader { length, value_length, type_, key };
        let value_size: usize = if type_ == 1 {
            2 * (value_length as usize)
        } else {
            value_length as usize
        };
        if value_size > 0 {
            let room: usize = end - offset;
            let pad = padding(offset);
            assert(padding4(offset as int) == padding4(header@.size()));
            if room < pad || room - pad < value_size {
                return Err(Error::MalformedVersionInfo);
            }
        }
        Ok((offset, header))
    }

    /// The bytes that the value takes.
    pub fn value_size(&self) -> (r: usize)
        ensures
            r == self@.value_size(),
    {
        if self.type_ == 1 {
            2 * (self.value_length as usize)
        } else {
            self.value_length as usize
        }
    }
}

} // verus!
