use crate::error::Error;
use crate::exe::utils::{lemma_align4, padding, read_units, text_at, text_size};
use crate::exe::vs_header::{header_at, VSHeader, VSHeaderView};
use vstd::prelude::*;

verus! {

/// A record that gives one key its text.
pub struct VSString {
    pub header: VSHeader,
    /// The text, without the zero that ends it.
    pub value: Vec<u16>,
}

/// What a `VSString` holds.
pub struct VSStringView {
    pub header: VSHeaderView,
    pub value: Seq<u16>,
}

impl View for VSString {
    type V = VSStringView;

    open spec fn view(&self) -> VSStringView {
        VSStringView { header: self.header@, value: self.value@ }
    }
}

/// The record at `base`, read as a key with its text.  The text is made of
/// the code units of the value up to the first one that is zero.
pub open spec fn string_at(data: Seq<u8>, base: int) -> Option<VSStringView> {
    match header_at(data, base) {
        None => None,
        Some(header) => Some(
            VSStringView {
                header,
                value: text_at(data, base + header.value_offset(), header.value_size() / 2),
            },
        ),
    }
}

impl VSString {
    /// Reads the record at `base_offset` as a key with its text.
    pub fn parse(data: &[u8], base_offset: usize) -> (r: Result<VSString, Error>)
        ensures
            match r {
                Ok(string) => string_at(data@, base_offset as int) == Some(string@),
                Err(e) => e == Error::MalformedVersionInfo && string_at(data@, base_offset as int)
                    is None,
            },
    {
        let (offset, header) = match VSHeader::parse(data, base_offset) {
            Ok(parsed) => parsed,
            Err(e) => {
                return Err(e);
            },
        };
        let value_size = header.value_size();
        proof {
            lemma_align4(base_offset as int, header@.size());
        }
        let value = if value_size == 0 {
            Vec::new()
        } else {
            let start = offset + padding(offset);
            let n = text_size(data, start, value_size / 2);
            read_units(data, start, n)
        };
        assert(value@ == text_at(
            data@,
            base_offset + header@.value_offset(),
            header@.value_size() / 2,
        ));
        Ok(VSString { header, value })
    }
}

} // verus!
