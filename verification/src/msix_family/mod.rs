pub mod msix;
pub mod msixbundle;
