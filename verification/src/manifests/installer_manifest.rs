use vstd::prelude::*;

verus! {

/// Whether an installer installs for one user or for the whole machine.
#[derive(Clone, Copy, Debug, PartialEq, Eq, Hash, Structural)]
pub enum Scope {
    User,
    Machine,
}

/// The installer families that may sit inside an archive.
#[derive(Clone, Copy, Debug, PartialEq, Eq, Hash, Structural)]
pub enum NestedInstallerType {
    Msix,
    Msi,
    Appx,
    Exe,
    Inno,
    Nullsoft,
    Wix,
    Burn,
    Portable,
}

/// The device families a packaged app can target.
#[derive(Clone, Copy, Debug, PartialEq, Eq, Hash, Structural)]
pub enum Platform {
    WindowsDesktop,
    WindowsUniversal,
}

} // verus!
