use crate::types::architecture::Architecture;
use crate::types::guid::Guid;
use vstd::prelude::*;

verus! {

/// What the decoder of installer databases reports of one database.
pub struct Msi {
    pub architecture: Architecture,
    pub product_code: Guid,
    /// The language of the product, as a tag of BCP 47.
    pub product_language: String,
    /// Whether the database was authored with the WiX toolset.
    pub is_wix: bool,
}

} // verus!
