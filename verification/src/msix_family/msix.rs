use crate::manifests::installer_manifest::Platform;
use crate::types::architecture::Architecture;
use vstd::prelude::*;

verus! {

/// What the decoder of packaged apps reports of one package.
pub struct Msix {
    pub processor_architecture: Architecture,
    pub target_device_family: Platform,
    pub min_version: String,
    pub signature_sha_256: String,
    pub package_family_name: String,
}

} // verus!
