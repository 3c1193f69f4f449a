pub mod installer_manifest;
