//! Identification of Windows installer artifacts.
//!
//! Given the bytes of a downloaded file, the library classifies the installer
//! family, walks the resource tree of a Portable Executable, decodes the
//! version-information record and merges what it finds into one description
//! of the artifact.  Every function states what it computes in its contract.

pub mod download_file;
pub mod error;
pub mod exe;
pub mod file_analyser;
pub mod github;
pub mod manifests;
pub mod msi;
pub mod msix_family;
pub mod pe;
pub mod text;
pub mod types;
pub mod update_state;
pub mod url_utils;
pub mod zip;
