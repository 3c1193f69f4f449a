use crate::error::Error;
use crate::pe::image::PeImage;
use vstd::prelude::*;

verus! {

/// The processor family an installer targets.
#[derive(Clone, Copy, Debug, PartialEq, Eq, Hash, Structural)]
pub enum Architecture {
    X86,
    X64,
    Arm,
    Arm64,
    Neutral,
}

impl Architecture {
    /// The architecture that a machine number of a file header stands for.
    pub open spec fn of_machine(machine: u16) -> Option<Architecture> {
        if machine == 0x8664 || machine == 0x0200 {
            Some(Architecture::X64)
        } else if machine == 0x014c {
            Some(Architecture::X86)
        } else if machine == 0xAA64 {
            Some(Architecture::Arm64)
        } else if machine == 0x01c0 || machine == 0x01c2 || machine == 0x01c4 {
            Some(Architecture::Arm)
        } else {
            None
        }
    }

    /// The architecture that an executable is built for.  An image for a
    /// machine that is none of these is malformed.
    pub fn get_from_exe(pe: &PeImage) -> (r: Result<Architecture, Error>)
        ensures
            match r {
                Ok(architecture) => Architecture::of_machine(pe.machine) == Some(architecture),
                Err(e) => e == Error::MalformedPE && Architecture::of_machine(pe.machine) is None,
            },
    {
        let machine = pe.machine;
        if machine == 0x8664 || machine == 0x0200 {
            Ok(Architecture::X64)
        } else if machine == 0x014c {
            Ok(Architecture::X86)
        } else if machine == 0xAA64 {
            Ok(Architecture::Arm64)
        } else if machine == 0x01c0 || machine == 0x01c2 || machine == 0x01c4 {
            Ok(Architecture::Arm)
        } else {
            Err(Error::MalformedPE)
        }
    }
}

} // verus!
