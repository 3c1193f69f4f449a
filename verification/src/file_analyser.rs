//! The analysis of one artifact.  The library reads what the bytes of the
//! file tell by themselves; the containers and the XML of a manifest are
//! decoded by its caller, whom the analysis asks for one thing at a time.

use crate::download_file::Date;
use crate::error::Error;
use crate::exe::string_map::{strings_of, text_under, StringMap};
use crate::exe::vs_version_info::{version_info_in, VSVersionInfo};
use crate::manifests::installer_manifest::Platform;
use crate::msi::Msi;
use crate::msix_family::msix::Msix;
use crate::msix_family::msixbundle::MsixBundle;
use crate::pe::image::{pe_image_of, PeImage, PeImageView};
use crate::pe::resource::RT_RCDATA;
use crate::text::{
    after_last, chars_of, first_index, first_index_of, lowercase_of, same_text, string_of,
    tail_after, to_lowercase,
};
use crate::types::architecture::Architecture;
use crate::types::guid::Guid;
use crate::types::installer_type::{
    installer_type_of, is_burn_in, is_inno_in, is_nullsoft_name, manifest_range_in, InstallerType,
};
use crate::zip::Zip;
use vstd::prelude::*;
use vstd::slice::slice_subrange;

verus! {

/// The description of one artifact.
pub struct FileAnalyser {
    pub platform: Option<Vec<Platform>>,
    pub minimum_os_version: Option<String>,
    pub architecture: Architecture,
    pub installer_type: InstallerType,
    pub installer_sha_256: String,
    pub signature_sha_256: Option<String>,
    pub package_family_name: Option<String>,
    pub product_code: Option<Guid>,
    pub product_language: Option<String>,
    pub last_modified: Option<Date>,
    pub file_name: String,
    pub copyright: Option<String>,
    pub package_name: Option<String>,
    pub publisher: Option<String>,
    pub msi: Option<Msi>,
    pub zip: Option<Zip>,
}

/// What the analysis asks its caller to decode next.
#[derive(Clone, Copy, Debug, PartialEq, Eq, Structural)]
pub enum Request {
    /// The whole file, as an installer database.
    Msi,
    /// The whole file, as a packaged app.
    Msix,
    /// The whole file, as a bundle of packaged apps.
    MsixBundle,
    /// The whole file, as an archive.
    Zip,
    /// The bytes of the file in this range, as the XML of a manifest: the
    /// analysis wants the name that the manifest gives itself.
    Manifest { offset: usize, size: usize },
    /// The bytes of the file in this range, as an installer database.
    EmbeddedMsi { offset: usize, size: usize },
}

/// What the caller hands back.
pub enum Decoded {
    Msi(Msi),
    Msix(Msix),
    MsixBundle(MsixBundle),
    Zip(Zip),
    /// The name of the identity of the assembly, as far as the XML has one.
    Manifest(Option<String>),
}

/// An analysis under way.
pub struct Analysis {
    pub file_name: String,
    /// The extension of the file name, in lower case.
    pub extension: String,
    /// What the caller is asked for; nothing once the analysis can be
    /// finished.
    pub request: Option<Request>,
    /// The family, once the executable has told it.
    pub installer_type: Option<InstallerType>,
    /// The architecture that the executable is built for.
    pub pe_architecture: Option<Architecture>,
    /// For an executable with a resource named `MSI`: where the embedded
    /// database lies, or why it cannot be located.
    pub embedded_msi: Option<Result<(usize, usize), Error>>,
    pub copyright: Option<String>,
    pub package_name: Option<String>,
    pub publisher: Option<String>,
    pub msi: Option<Msi>,
    pub msix: Option<Msix>,
    pub msix_bundle: Option<MsixBundle>,
    pub zip: Option<Zip>,
}

/// The extension of a file name as it is written: what follows the last dot
/// of the last part of the path, and nothing where that part has no dot.
pub open spec fn raw_extension(file_name: Seq<char>) -> Seq<char> {
    let name = after_last(after_last(file_name, '/'), '\\');
    if first_index_of(name, '.') >= name.len() {
        Seq::empty()
    } else {
        after_last(name, '.')
    }
}

/// The extension of a file name, in lower case.
pub open spec fn extension_of(file_name: Seq<char>) -> Seq<char> {
    lowercase_of(raw_extension(file_name))
}

/// Where the embedded installer database of a Burn bundle lies in a file of
/// `file_size` bytes: the resource named `MSI` among the raw data.  A bundle
/// without that leaf is malformed.
pub open spec fn embedded_msi_range(pe: PeImageView, file_size: int) -> Result<(int, int), Error> {
    match pe.resource_range(file_size, RT_RCDATA, Some("msi"@)) {
        Ok(Some(range)) => Ok(range),
        Ok(None) => Err(Error::MalformedEmbeddedMsi),
        Err(e) => Err(e),
    }
}

/// What the extension alone makes the analysis ask for.  An archive inside
/// an archive is not opened.
pub open spec fn container_request(extension: Seq<char>, nested: bool) -> Option<Request> {
    if extension == "msi"@ {
        Some(Request::Msi)
    } else if extension == "msix"@ || extension == "appx"@ {
        Some(Request::Msix)
    } else if extension == "msixbundle"@ || extension == "appxbundle"@ {
        Some(Request::MsixBundle)
    } else if extension == "zip"@ && !nested {
        Some(Request::Zip)
    } else {
        None
    }
}

/// The family of an executable that is neither built with Inno Setup nor a
/// Nullsoft installer, and what is asked for next: a Burn bundle where it
/// carries a database, which is then to be decoded, and a plain executable
/// otherwise.
pub open spec fn settled(embedded: Option<Result<(usize, usize), Error>>) -> Result<
    (InstallerType, Option<Request>),
    Error,
> {
    match embedded {
        None => Ok((InstallerType::Exe, None)),
        Some(Ok((offset, size))) => Ok(
            (InstallerType::Burn, Some(Request::EmbeddedMsi { offset, size })),
        ),
        Some(Err(e)) => Err(e),
    }
}

/// The same range or error, with the numbers as integers.
pub open spec fn as_ints(embedded: Option<Result<(usize, usize), Error>>) -> Option<
    Result<(int, int), Error>,
> {
    match embedded {
        None => None,
        Some(Ok((offset, size))) => Some(Ok((offset as int, size as int))),
        Some(Err(e)) => Some(Err(e)),
    }
}

/// What a string spells, where there is one.
pub open spec fn spelt(text: Option<String>) -> Option<Seq<char>> {
    match text {
        Some(text) => Some(text@),
        None => None,
    }
}

/// The text that the version information of an executable holds under a
/// key, where it has version information with a table of texts.
pub open spec fn text_in(pe: PeImageView, data: Seq<u8>, name: Seq<char>) -> Option<Seq<char>> {
    match version_info_in(pe, data) {
        Ok(Some(info)) => match strings_of(info) {
            Some(strings) => text_under(strings, name),
            None => None,
        },
        _ => None,
    }
}

/// Why the analysis of a file cannot start: an executable that cannot be
/// read, that is built for an unknown machine, whose version information is
/// malformed, or that is a Burn bundle whose database cannot be located.
pub open spec fn start_error(data: Seq<u8>, file_name: Seq<char>) -> Option<Error> {
    if extension_of(file_name) != "exe"@ {
        None
    } else {
        match pe_image_of(data) {
            Err(e) => Some(e),
            Ok(None) => None,
            Ok(Some(pe)) => if Architecture::of_machine(pe.machine) is None {
                Some(Error::MalformedPE)
            } else if version_info_in(pe, data) is Err {
                Some(version_info_in(pe, data)->Err_0)
            } else if is_inno_in(pe, data) || manifest_range_in(pe, data.len() as int) is Some
                || !is_burn_in(pe) {
                None
            } else {
                match embedded_msi_range(pe, data.len() as int) {
                    Err(e) => Some(e),
                    Ok(_) => None,
                }
            },
        }
    }
}

/// What the analysis of an executable holds at its start.
pub open spec fn started_executable(pe: PeImageView, data: Seq<u8>, state: Analysis) -> bool {
    &&& state.pe_architecture == Architecture::of_machine(pe.machine)
    &&& as_ints(state.embedded_msi) == if is_burn_in(pe) {
        Some(embedded_msi_range(pe, data.len() as int))
    } else {
        None
    }
    &&& spelt(state.copyright) == text_in(pe, data, "LegalCopyright"@)
    &&& spelt(state.package_name) == text_in(pe, data, "ProductName"@)
    &&& spelt(state.publisher) == text_in(pe, data, "CompanyName"@)
    &&& if is_inno_in(pe, data) {
        state.installer_type == Some(InstallerType::Inno) && state.request is None
    } else if manifest_range_in(pe, data.len() as int) is Some {
        &&& state.installer_type is None
        &&& state.request matches Some(Request::Manifest { offset, size })
        &&& manifest_range_in(pe, data.len() as int) == Some((offset as int, size as int))
        &&& offset + size <= data.len()
    } else {
        &&& settled(state.embedded_msi) matches Ok((installer_type, request))
        &&& state.installer_type == Some(installer_type)
        &&& state.request == request
    }
}

/// What the analysis of a file holds at its start.
pub open spec fn started(
    data: Seq<u8>,
    file_name: Seq<char>,
    nested: bool,
    state: Analysis,
) -> bool {
    &&& state.file_name@ == file_name
    &&& state.extension@ == extension_of(file_name)
    &&& state.msi is None
    &&& state.msix is None
    &&& state.msix_bundle is None
    &&& state.zip is None
    &&& state.request matches Some(Request::EmbeddedMsi { offset, size }) ==> offset + size
        <= data.len()
    &&& if extension_of(file_name) == "exe"@ && pe_image_of(data) is Ok && pe_image_of(
        data,
    )->Ok_0 is Some {
        started_executable(pe_image_of(data)->Ok_0->0, data, state)
    } else {
        &&& state.installer_type is None
        &&& state.pe_architecture is None
        &&& state.embedded_msi is None
        &&& state.copyright is None
        &&& state.package_name is None
        &&& state.publisher is None
        &&& state.request == container_request(extension_of(file_name), nested)
    }
}

/// The state after the caller has handed back what was asked for.  To hand
/// back anything else breaks the order of the analysis.
pub open spec fn supplied(state: Analysis, decoded: Decoded) -> Result<Analysis, Error> {
    match (state.request, decoded) {
        (Some(Request::Msi), Decoded::Msi(msi)) => Ok(
            Analysis { msi: Some(msi), request: None, ..state },
        ),
        (Some(Request::EmbeddedMsi { .. }), Decoded::Msi(msi)) => Ok(
            Analysis { msi: Some(msi), request: None, ..state },
        ),
        (Some(Request::Msix), Decoded::Msix(msix)) => Ok(
            Analysis { msix: Some(msix), request: None, ..state },
        ),
        (Some(Request::MsixBundle), Decoded::MsixBundle(bundle)) => Ok(
            Analysis { msix_bundle: Some(bundle), request: None, ..state },
        ),
        (Some(Request::Zip), Decoded::Zip(zip)) => Ok(
            Analysis { zip: Some(zip), request: None, ..state },
        ),
        (Some(Request::Manifest { .. }), Decoded::Manifest(name)) => if is_nullsoft_name(
            spelt(name),
        ) {
            Ok(
                Analysis {
                    installer_type: Some(InstallerType::Nullsoft),
                    request: None,
                    ..state
                },
            )
        } else {
            match settled(state.embedded_msi) {
                Ok((installer_type, request)) => Ok(
                    Analysis { installer_type: Some(installer_type), request, ..state },
                ),
                Err(e) => Err(e),
            }
        },
        _ => Err(Error::Unexpected),
    }
}

/// The family that the finished analysis reports: the one that the
/// executable told, or else the one that the extension tells.
pub open spec fn final_installer_type(state: Analysis) -> Result<InstallerType, Error> {
    match state.installer_type {
        Some(installer_type) => Ok(installer_type),
        None => installer_type_of(Seq::empty(), None, state.extension@, state.msi, None),
    }
}

/// The architecture that the finished analysis reports: that of the
/// database, else that of the packaged app, else that of the executable.
pub open spec fn final_architecture(state: Analysis) -> Option<Architecture> {
    match state.msi {
        Some(msi) => Some(msi.architecture),
        None => match state.msix {
            Some(msix) => Some(msix.processor_architecture),
            None => state.pe_architecture,
        },
    }
}

/// Why an analysis cannot be finished: a request is still open, the
/// extension is not supported, or nothing tells the architecture.
pub open spec fn finish_error(state: Analysis) -> Option<Error> {
    if state.request is Some {
        Some(Error::Unexpected)
    } else if final_installer_type(state) is Err {
        Some(final_installer_type(state)->Err_0)
    } else if final_architecture(state) is None {
        Some(Error::Unexpected)
    } else {
        None
    }
}

/// What the finished analysis reports.
pub open spec fn finished(state: Analysis, file: FileAnalyser) -> bool {
    &&& final_installer_type(state) == Ok::<_, Error>(file.installer_type)
    &&& final_architecture(state) == Some(file.architecture)
    &&& match state.msix {
        Some(msix) => file.platform matches Some(platform) && platform@
            == seq![msix.target_device_family] && file.minimum_os_version == Some(
            msix.min_version,
        ) && file.signature_sha_256 == Some(msix.signature_sha_256) && file.package_family_name
            == Some(msix.package_family_name),
        None => file.platform is None && file.minimum_os_version is None && match state.msix_bundle {
            Some(bundle) => file.signature_sha_256 == Some(bundle.signature_sha_256)
                && file.package_family_name == Some(bundle.package_family_name),
            None => file.signature_sha_256 is None && file.package_family_name is None,
        },
    }
    &&& match state.msi {
        Some(msi) => file.product_code == Some(msi.product_code) && file.product_language == Some(
            msi.product_language,
        ),
        None => file.product_code is None && file.product_language is None,
    }
    &&& file.installer_sha_256@ == Seq::<char>::empty()
    &&& file.last_modified is None
    &&& file.file_name == state.file_name
    &&& file.copyright == state.copyright
    &&& file.package_name == state.package_name
    &&& file.publisher == state.publisher
    &&& file.msi == state.msi
    &&& file.zip == state.zip
}

/// Two analyses of the same bytes under the same name start alike: whatever
/// `begin` returns for them, it holds the same.
pub proof fn lemma_begin_is_deterministic(
    data: Seq<u8>,
    file_name: Seq<char>,
    nested: bool,
    first: Analysis,
    second: Analysis,
)
    requires
        started(data, file_name, nested, first),
        started(data, file_name, nested, second),
    ensures
        first.file_name@ == second.file_name@,
        first.extension@ == second.extension@,
        first.request == second.request,
        first.installer_type == second.installer_type,
        first.pe_architecture == second.pe_architecture,
        first.embedded_msi == second.embedded_msi,
        spelt(first.copyright) == spelt(second.copyright),
        spelt(first.package_name) == spelt(second.package_name),
        spelt(first.publisher) == spelt(second.publisher),
        first.msi == second.msi,
        first.msix == second.msix,
        first.msix_bundle == second.msix_bundle,
        first.zip == second.zip,
{
}

/// An analysis is finished in one way only: whatever `FileAnalyser::new`
/// returns for a state, it holds the same.
pub proof fn lemma_finish_is_deterministic(
    state: Analysis,
    first: FileAnalyser,
    second: FileAnalyser,
)
    requires
        finished(state, first),
        finished(state, second),
    ensures
        first.installer_type == second.installer_type,
        first.architecture == second.architecture,
        match (first.platform, second.platform) {
            (Some(a), Some(b)) => a@ == b@,
            (None, None) => true,
            _ => false,
        },
        first.minimum_os_version == second.minimum_os_version,
        first.installer_sha_256@ == second.installer_sha_256@,
        first.signature_sha_256 == second.signature_sha_256,
        first.package_family_name == second.package_family_name,
        first.product_code == second.product_code,
        first.product_language == second.product_language,
        first.last_modified == second.last_modified,
        first.file_name == second.file_name,
        first.copyright == second.copyright,
        first.package_name == second.package_name,
        first.publisher == second.publisher,
        first.msi == second.msi,
        first.zip == second.zip,
{
}

/// The extension of an executable asks for no container to be decoded.
pub proof fn lemma_executable_asks_for_no_container(nested: bool)
    ensures
        container_request("exe"@, nested) is None,
{
    reveal_strlit("exe");
    reveal_strlit("msi");
    reveal_strlit("msix");
    reveal_strlit("appx");
    reveal_strlit("msixbundle");
    reveal_strlit("appxbundle");
    reveal_strlit("zip");
    assert("exe"@[0] != "msi"@[0]);
    assert("exe"@[0] != "zip"@[0]);
}

/// The extension of a file name, in lower case.
pub fn extension(file_name: &str) -> (r: String)
    ensures
        r@ == extension_of(file_name@),
{
    let chars = chars_of(file_name);
    let part = tail_after(tail_after(chars.as_slice(), '/').as_slice(), '\\');
    let raw = if first_index(part.as_slice(), '.') >= part.len() {
        Vec::new()
    } else {
        tail_after(part.as_slice(), '.')
    };
    to_lowercase(string_of(raw.as_slice()).as_str())
}

/// Where the embedded installer database of a Burn bundle lies in a file of
/// `file_size` bytes.
pub fn embedded_msi(pe: &PeImage, file_size: usize) -> (r: Result<(usize, usize), Error>)
    ensures
        match r {
            Ok((offset, size)) => embedded_msi_range(pe@, file_size as int) == Ok::<_, Error>(
                (offset as int, size as int),
            ) && offset + size <= file_size,
            Err(e) => embedded_msi_range(pe@, file_size as int) == Err::<(int, int), _>(e),
        },
{
    match pe.resource_range(file_size, RT_RCDATA, Some("msi")) {
        Ok(Some(range)) => Ok(range),
        Ok(None) => Err(Error::MalformedEmbeddedMsi),
        Err(e) => Err(e),
    }
}

/// The bytes of the installer database that a Burn bundle carries: exactly
/// as many as its leaf states.
pub fn extract_msi<'a>(pe: &PeImage, data: &'a [u8]) -> (r: Result<&'a [u8], Error>)
    ensures
        match r {
            Ok(bytes) => embedded_msi_range(pe@, data@.len() as int) matches Ok((offset, size))
                && bytes@ == data@.subrange(offset, offset + size) && bytes@.len() == size,
            Err(e) => embedded_msi_range(pe@, data@.len() as int) == Err::<(int, int), _>(e),
        },
{
    match embedded_msi(pe, data.len()) {
        Ok((offset, size)) => Ok(slice_subrange(data, offset, offset + size)),
        Err(e) => Err(e),
    }
}

impl Analysis {
    /// Starts the analysis of a file: reads what its bytes tell by
    /// themselves, and says in `request` what is to be decoded next.
    pub fn begin(data: &[u8], file_name: String, nested: bool) -> (r: Result<Analysis, Error>)
        ensures
            match r {
                Ok(state) => start_error(data@, file_name@) is None && started(
                    data@,
                    file_name@,
                    nested,
                    state,
                ),
                Err(e) => start_error(data@, file_name@) == Some(e),
            },
    {
        let extension = extension(file_name.as_str());
        let mut state = Analysis {
            file_name,
            extension,
            request: None,
            installer_type: None,
            pe_architecture: None,
            embedded_msi: None,
            copyright: None,
            package_name: None,
            publisher: None,
            msi: None,
            msix: None,
            msix_bundle: None,
            zip: None,
        };
        if !same_text(state.extension.as_str(), "exe") {
            state.request = if same_text(state.extension.as_str(), "msi") {
                Some(Request::Msi)
            } else if same_text(state.extension.as_str(), "msix") || same_text(
                state.extension.as_str(),
                "appx",
            ) {
                Some(Request::Msix)
            } else if same_text(state.extension.as_str(), "msixbundle") || same_text(
                state.extension.as_str(),
                "appxbundle",
            ) {
                Some(Request::MsixBundle)
            } else if same_text(state.extension.as_str(), "zip") && !nested {
                Some(Request::Zip)
            } else {
                None
            };
            return Ok(state);
        }
        let pe = match PeImage::parse(data) {
            Ok(Some(pe)) => pe,
            Ok(None) => {
                proof {
                    lemma_executable_asks_for_no_container(nested);
                }
                return Ok(state);
            },
            Err(e) => {
                return Err(e);
            },
        };
        state.pe_architecture = match Architecture::get_from_exe(&pe) {
            Ok(architecture) => Some(architecture),
            Err(e) => {
                return Err(e);
            },
        };
        let strings = match VSVersionInfo::find(&pe, data) {
            Ok(Some(info)) => StringMap::of(info),
            Ok(None) => None,
            Err(e) => {
                return Err(e);
            },
        };
        match &strings {
            Some(strings) => {
                state.copyright = strings.text("LegalCopyright");
                state.package_name = strings.text("ProductName");
                state.publisher = strings.text("CompanyName");
            },
            None => {},
        }
        if InstallerType::is_burn(&pe) {
            state.embedded_msi = Some(embedded_msi(&pe, data.len()));
        }
        if InstallerType::is_inno(&pe, data) {
            state.installer_type = Some(InstallerType::Inno);
            return Ok(state);
        }
        match InstallerType::manifest_range(&pe, data.len()) {
            Some((offset, size)) => {
                state.request = Some(Request::Manifest { offset, size });
                return Ok(state);
            },
            None => {},
        }
        state.settle()
    }

    /// Decides between a Burn bundle and a plain executable.
    fn settle(self) -> (r: Result<Analysis, Error>)
        ensures
            r == match settled(self.embedded_msi) {
                Ok((installer_type, request)) => Ok(
                    Analysis { installer_type: Some(installer_type), request, ..self },
                ),
                Err(e) => Err(e),
            },
    {
        let mut state = self;
        match state.embedded_msi {
            None => {
                state.installer_type = Some(InstallerType::Exe);
                state.request = None;
                Ok(state)
            },
            Some(Ok((offset, size))) => {
                state.installer_type = Some(InstallerType::Burn);
                state.request = Some(Request::EmbeddedMsi { offset, size });
                Ok(state)
            },
            Some(Err(e)) => Err(e),
        }
    }

    /// Takes what the caller decoded on request, and says in `request` what
    /// is to be decoded next.
    pub fn supply(self, decoded: Decoded) -> (r: Result<Analysis, Error>)
        ensures
            r == supplied(self, decoded),
    {
        let mut state = self;
        match (state.request, decoded) {
            (Some(Request::Msi), Decoded::Msi(msi)) => {
                state.msi = Some(msi);
                state.request = None;
                Ok(state)
            },
            (Some(Request::EmbeddedMsi { .. }), Decoded::Msi(msi)) => {
                state.msi = Some(msi);
                state.request = None;
                Ok(state)
            },
            (Some(Request::Msix), Decoded::Msix(msix)) => {
                state.msix = Some(msix);
                state.request = None;
                Ok(state)
            },
            (Some(Request::MsixBundle), Decoded::MsixBundle(bundle)) => {
                state.msix_bundle = Some(bundle);
                state.request = None;
                Ok(state)
            },
            (Some(Request::Zip), Decoded::Zip(zip)) => {
                state.zip = Some(zip);
                state.request = None;
                Ok(state)
            },
            (Some(Request::Manifest { .. }), Decoded::Manifest(name)) => {
                let nullsoft = match &name {
                    Some(name) => InstallerType::is_nullsoft(Some(name.as_str())),
                    None => false,
                };
                if nullsoft {
                    state.installer_type = Some(InstallerType::Nullsoft);
                    state.request = None;
                    Ok(state)
                } else {
                    state.settle()
                }
            },
            _ => Err(Error::Unexpected),
        }
    }
}

impl FileAnalyser {
    /// Finishes an analysis that has no request open, and merges what was
    /// found into the description of the artifact.
    pub fn new(state: Analysis) -> (r: Result<FileAnalyser, Error>)
        ensures
            match r {
                Ok(file) => finish_error(state) is None && finished(state, file),
                Err(e) => finish_error(state) == Some(e),
            },
    {
        if state.request.is_some() {
            return Err(Error::Unexpected);
        }
        let installer_type = match state.installer_type {
            Some(installer_type) => installer_type,
            None => {
                let nothing: Vec<u8> = Vec::new();
                match InstallerType::get(
                    nothing.as_slice(),
                    None,
                    state.extension.as_str(),
                    state.msi.as_ref(),
                    None,
                ) {
                    Ok(installer_type) => installer_type,
                    Err(e) => {
                        return Err(e);
                    },
                }
            },
        };
        let architecture = match (&state.msi, &state.msix, state.pe_architecture) {
            (Some(msi), _, _) => msi.architecture,
            (None, Some(msix), _) => msix.processor_architecture,
            (None, None, Some(architecture)) => architecture,
            (None, None, None) => {
                return Err(Error::Unexpected);
            },
        };
        let (product_code, product_language) = match &state.msi {
            Some(msi) => (Some(msi.product_code), Some(msi.product_language.clone())),
            None => (None, None),
        };
        let (platform, minimum_os_version, signature_sha_256, package_family_name) =
            match state.msix {
            Some(msix) => {
                let mut platform: Vec<Platform> = Vec::new();
                platform.push(msix.target_device_family);
                (
                    Some(platform),
                    Some(msix.min_version),
                    Some(msix.signature_sha_256),
                    Some(msix.package_family_name),
                )
            },
            None => match state.msix_bundle {
                Some(bundle) => (
                    None,
                    None,
                    Some(bundle.signature_sha_256),
                    Some(bundle.package_family_name),
                ),
                None => (None, None, None, None),
            },
        };
        Ok(
            FileAnalyser {
                platform,
                minimum_os_version,
                architecture,
                installer_type,
                installer_sha_256: String::new(),
                signature_sha_256,
                package_family_name,
                product_code,
                product_language,
                last_modified: None,
                file_name: state.file_name,
                copyright: state.copyright,
                package_name: state.package_name,
                publisher: state.publisher,
                msi: state.msi,
                zip: state.zip,
            },
        )
    }
}

} // verus!
