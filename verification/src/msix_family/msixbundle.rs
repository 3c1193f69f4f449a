use vstd::prelude::*;

verus! {

/// What the decoder of packaged apps reports of a bundle of packages.
pub struct MsixBundle {
    pub signature_sha_256: String,
    pub package_family_name: String,
}

} // verus!
