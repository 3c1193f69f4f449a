use crate::manifests::installer_manifest::NestedInstallerType;
use vstd::prelude::*;

verus! {

/// What the decoder of archives reports of one archive: the installers that
/// it found inside, and their family.
pub struct Zip {
    pub nested_installer_type: Option<NestedInstallerType>,
    pub nested_installer_files: Vec<String>,
}

} // verus!
