use crate::error::Error;
use crate::exe::utils::{spells, units_spell};
use crate::exe::vs_string::{VSString, VSStringView};
use crate::exe::vs_string_table::string_views;
use crate::exe::vs_version_info::{first_string_table, version_info_in, VSVersionInfo};
use crate::manifests::installer_manifest::NestedInstallerType;
use crate::msi::Msi;
use crate::pe::image::{PeImage, PeImageView, ResourceData, ResourceDataView};
use crate::pe::resource::{
    entries_of_type, find_by_name, find_type, first_with_name, RT_MANIFEST, RT_RCDATA,
};
use crate::text::{chars_of, same_text};
use crate::url_utils::valid_file_extensions;
use vstd::prelude::*;

verus! {

/// The families of installers.
#[derive(Clone, Copy, Debug, PartialEq, Eq, Hash, Structural)]
pub enum InstallerType {
    Msix,
    Msi,
    Appx,
    Exe,
    Zip,
    Inno,
    Nullsoft,
    Wix,
    Burn,
    Pwa,
    Portable,
}

/// One of the texts says that the installer was built with Inno Setup.
pub open spec fn has_inno_comment(strings: Seq<VSStringView>) -> bool {
    exists|i: int|
        0 <= i < strings.len() && spells(#[trigger] strings[i].header.key, "Comments"@) && spells(
            strings[i].value,
            "This installation was built with Inno Setup."@,
        )
}

/// The first table of texts of the executable says that it was built with
/// Inno Setup.  An executable whose version information is missing or
/// cannot be read says nothing.
pub open spec fn is_inno_in(pe: PeImageView, data: Seq<u8>) -> bool {
    match version_info_in(pe, data) {
        Ok(Some(info)) => match first_string_table(info) {
            Some(table) => has_inno_comment(table.children),
            None => false,
        },
        _ => false,
    }
}

/// The name that the manifest of the stub of a Nullsoft installer gives
/// itself.
pub open spec fn is_nullsoft_name(manifest: Option<Seq<char>>) -> bool {
    manifest == Some("Nullsoft.NSIS.exehead"@)
}

/// Among the raw data of the executable is a resource with the name `MSI`,
/// in either case.
pub open spec fn is_burn_in(pe: PeImageView) -> bool {
    match pe.resources {
        ResourceDataView::Bytes(directory) => match entries_of_type(directory, RT_RCDATA) {
            Ok(Some(entries)) => first_with_name(directory, entries, "msi"@) is Some,
            _ => false,
        },
        _ => false,
    }
}

/// Where the XML of the first manifest lies in the file of an executable, as
/// far as it has one that can be found.
pub open spec fn manifest_range_in(pe: PeImageView, file_size: int) -> Option<(int, int)> {
    match pe.resource_range(file_size, RT_MANIFEST, None) {
        Ok(Some(range)) => Some(range),
        _ => None,
    }
}

/// The family of an installer.  The extension decides for databases,
/// packaged apps and archives.  An executable is told by what it carries:
/// the comment of Inno Setup, else the manifest of Nullsoft, else an embedded
/// database, which makes it a Burn bundle; with none of them, or without an
/// image, it is a plain executable.  Any other extension is not supported.
pub open spec fn installer_type_of(
    data: Seq<u8>,
    pe: Option<PeImageView>,
    extension: Seq<char>,
    msi: Option<Msi>,
    manifest: Option<Seq<char>>,
) -> Result<InstallerType, Error> {
    if extension == "msi"@ {
        Ok(
            if msi is Some && msi->0.is_wix {
                InstallerType::Wix
            } else {
                InstallerType::Msi
            },
        )
    } else if extension == "msix"@ || extension == "msixbundle"@ {
        Ok(InstallerType::Msix)
    } else if extension == "appx"@ || extension == "appxbundle"@ {
        Ok(InstallerType::Appx)
    } else if extension == "zip"@ {
        Ok(InstallerType::Zip)
    } else if extension == "exe"@ {
        Ok(
            match pe {
                Some(pe) => if is_inno_in(pe, data) {
                    InstallerType::Inno
                } else if is_nullsoft_name(manifest) {
                    InstallerType::Nullsoft
                } else if is_burn_in(pe) {
                    InstallerType::Burn
                } else {
                    InstallerType::Exe
                },
                None => InstallerType::Exe,
            },
        )
    } else {
        Err(Error::UnsupportedExtension)
    }
}

/// Every known extension gets a family: the classifier never fails on one.
pub proof fn lemma_classifier_is_total(
    data: Seq<u8>,
    pe: Option<PeImageView>,
    extension: Seq<char>,
    msi: Option<Msi>,
    manifest: Option<Seq<char>>,
    i: int,
)
    requires
        0 <= i < valid_file_extensions().len(),
        extension == valid_file_extensions()[i],
    ensures
        installer_type_of(data, pe, extension, msi, manifest) is Ok,
{
}

/// Whether one of the texts says that the installer was built with Inno
/// Setup.
pub fn inno_comment(strings: &[VSString]) -> (r: bool)
    ensures
        r == has_inno_comment(string_views(strings@)),
{
    let mut i: usize = 0;
    while i < strings.len()
        invariant
            i <= strings.len(),
            forall|j: int|
                0 <= j < i ==> !(spells(
                    #[trigger] string_views(strings@)[j].header.key,
                    "Comments"@,
                ) && spells(
                    string_views(strings@)[j].value,
                    "This installation was built with Inno Setup."@,
                )),
        decreases strings.len() - i,
    {
        assert(string_views(strings@)[i as int] == strings@[i as int]@);
        if units_spell(strings[i].header.key.as_slice(), "Comments") && units_spell(
            strings[i].value.as_slice(),
            "This installation was built with Inno Setup.",
        ) {
            assert(spells(string_views(strings@)[i as int].header.key, "Comments"@) && spells(
                string_views(strings@)[i as int].value,
                "This installation was built with Inno Setup."@,
            ));
            return true;
        }
        i += 1;
    }
    false
}

impl InstallerType {
    /// Whether the executable says that it was built with Inno Setup.
    pub fn is_inno(pe: &PeImage, data: &[u8]) -> (r: bool)
        ensures
            r == is_inno_in(pe@, data@),
    {
        match VSVersionInfo::find(pe, data) {
            Ok(Some(info)) => match info.string_table() {
                Some(table) => inno_comment(table.children.as_slice()),
                None => false,
            },
            _ => false,
        }
    }

    /// Whether the name that a manifest gives itself is that of the stub of
    /// a Nullsoft installer.
    pub fn is_nullsoft(manifest: Option<&str>) -> (r: bool)
        ensures
            r == is_nullsoft_name(
                match manifest {
                    Some(name) => Some(name@),
                    None => None,
                },
            ),
    {
        match manifest {
            Some(name) => same_text(name, "Nullsoft.NSIS.exehead"),
            None => false,
        }
    }

    /// Whether the executable carries a resource named `MSI` among its raw
    /// data.
    pub fn is_burn(pe: &PeImage) -> (r: bool)
        ensures
            r == is_burn_in(pe@),
    {
        match &pe.resources {
            ResourceData::Bytes(directory) => match find_type(directory.as_slice(), RT_RCDATA) {
                Ok(Some(entries)) => {
                    let name = chars_of("msi");
                    find_by_name(
                        directory.as_slice(),
                        entries.as_slice(),
                        name.as_slice(),
                    ).is_some()
                },
                _ => false,
            },
            _ => false,
        }
    }

    /// Where the XML of the first manifest of the executable lies in its
    /// file.
    pub fn manifest_range(pe: &PeImage, file_size: usize) -> (r: Option<(usize, usize)>)
        ensures
            match r {
                Some((offset, size)) => manifest_range_in(pe@, file_size as int) == Some(
                    (offset as int, size as int),
                ) && offset + size <= file_size,
                None => manifest_range_in(pe@, file_size as int) is None,
            },
    {
        match pe.resource_range(file_size, RT_MANIFEST, None) {
            Ok(Some(range)) => Some(range),
            _ => None,
        }
    }

    /// The family of an installer: `data` holds the bytes of the file, `pe`
    /// its image where it is an executable, `msi` what the decoder of
    /// databases reported, and `manifest` the name that the first manifest of
    /// the executable gives itself.
    pub fn get(
        data: &[u8],
        pe: Option<&PeImage>,
        extension: &str,
        msi: Option<&Msi>,
        manifest: Option<&str>,
    ) -> (r: Result<InstallerType, Error>)
        ensures
            r == installer_type_of(
                data@,
                match pe {
                    Some(pe) => Some(pe@),
                    None => None,
                },
                extension@,
                match msi {
                    Some(msi) => Some(*msi),
                    None => None,
                },
                match manifest {
                    Some(name) => Some(name@),
                    None => None,
                },
            ),
    {
        if same_text(extension, "msi") {
            match msi {
                Some(msi) => if msi.is_wix {
                    Ok(InstallerType::Wix)
                } else {
                    Ok(InstallerType::Msi)
                },
                None => Ok(InstallerType::Msi),
            }
        } else if same_text(extension, "msix") || same_text(extension, "msixbundle") {
            Ok(InstallerType::Msix)
        } else if same_text(extension, "appx") || same_text(extension, "appxbundle") {
            Ok(InstallerType::Appx)
        } else if same_text(extension, "zip") {
            Ok(InstallerType::Zip)
        } else if same_text(extension, "exe") {
            match pe {
                Some(pe) => if InstallerType::is_inno(pe, data) {
                    Ok(InstallerType::Inno)
                } else if InstallerType::is_nullsoft(manifest) {
                    Ok(InstallerType::Nullsoft)
                } else if InstallerType::is_burn(pe) {
                    Ok(InstallerType::Burn)
                } else {
                    Ok(InstallerType::Exe)
                },
                None => Ok(InstallerType::Exe),
            }
        } else {
            Err(Error::UnsupportedExtension)
        }
    }

    /// The family as that of an installer inside an archive.  An archive and
    /// a web app cannot stand inside one.
    pub open spec fn nested(self) -> Option<NestedInstallerType> {
        match self {
            InstallerType::Msix => Some(NestedInstallerType::Msix),
            InstallerType::Msi => Some(NestedInstallerType::Msi),
            InstallerType::Appx => Some(NestedInstallerType::Appx),
            InstallerType::Exe => Some(NestedInstallerType::Exe),
            InstallerType::Inno => Some(NestedInstallerType::Inno),
            InstallerType::Nullsoft => Some(NestedInstallerType::Nullsoft),
            InstallerType::Wix => Some(NestedInstallerType::Wix),
            InstallerType::Burn => Some(NestedInstallerType::Burn),
            InstallerType::Portable => Some(NestedInstallerType::Portable),
            InstallerType::Zip => None,
            InstallerType::Pwa => None,
        }
    }

    /// The family as that of an installer inside an archive.
    pub fn to_nested(self) -> (r: Option<NestedInstallerType>)
        ensures
            r == self.nested(),
    {
        match self {
            InstallerType::Msix => Some(NestedInstallerType::Msix),
            InstallerType::Msi => Some(NestedInstallerType::Msi),
            InstallerType::Appx => Some(NestedInstallerType::Appx),
            InstallerType::Exe => Some(NestedInstallerType::Exe),
            InstallerType::Inno => Some(NestedInstallerType::Inno),
            InstallerType::Nullsoft => Some(NestedInstallerType::Nullsoft),
            InstallerType::Wix => Some(NestedInstallerType::Wix),
            InstallerType::Burn => Some(NestedInstallerType::Burn),
            InstallerType::Portable => Some(NestedInstallerType::Portable),
            _ => None,
        }
    }
}

} // verus!
