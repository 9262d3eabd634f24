//! Construction, validation, and activation of a CPU interrupt/exception
//! dispatch table, plus the registration discipline around it, and the
//! character-cell text driver used for diagnostics.
//!
//! The hardware-facing steps that cannot be expressed here (issuing the
//! table-load instruction on a static copy of the encoded table, writing the
//! real character-cell memory) are left to the surrounding program, which
//! consumes the plain values this crate produces.

pub mod idt;
pub mod registry;
pub mod vga_buffer;

use vstd::prelude::*;

verus! {

/// Exit status reported to the emulator's debug-exit device by the
/// surrounding program.
#[derive(Clone, Copy, Debug, PartialEq, Eq, Structural)]
pub enum QemuExitCode {
    Success,
    Failure,
}

impl QemuExitCode {
    /// The 32-bit value the emulator expects on its exit port.
    pub open spec fn spec_code(self) -> u32 {
        match self {
            QemuExitCode::Success => 0x10,
            QemuExitCode::Failure => 0x11,
        }
    }

    pub fn code(self) -> (r: u32)
        ensures
            r == self.spec_code(),
    {
        match self {
            QemuExitCode::Success => 0x10,
            QemuExitCode::Failure => 0x11,
        }
    }
}

} // verus!
