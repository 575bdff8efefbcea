//! The errors of the emulator.

use vstd::prelude::*;

verus! {

/// What can go wrong while loading an image or running a program.
#[derive(Debug, Copy, Clone, PartialEq, Eq, Structural)]
pub enum VmError {
    /// The image holds fewer than two bytes, or could not be read.
    InvalidImage,
    /// The program executed RTI.
    UnsupportedInstruction,
    /// The operation code could not be decoded.
    UnknownOpcode,
    /// The program executed TRAP with a vector outside 0x20..=0x25.
    UnknownTrap,
    /// The console failed.
    HostIoError,
}

impl VmError {
    /// A short description of the error.
    pub fn message(self) -> (r: &'static str) {
        match self {
            VmError::InvalidImage => "invalid image",
            VmError::UnsupportedInstruction => "unsupported instruction",
            VmError::UnknownOpcode => "unknown operation code",
            VmError::UnknownTrap => "unknown trap vector",
            VmError::HostIoError => "console error",
        }
    }
}

} // verus!
