//! Exit codes for kernel tests that run under an emulator.

use vstd::prelude::*;

verus! {

/// The port of the emulator's exit device.
pub const EXIT_PORT: u16 = 0xf4;

/// Exit codes for `Qemu` kernel tests.
#[derive(Debug, Clone, Copy, PartialEq, Eq, Structural)]
pub enum ExitCode {
    /// Successful exit.
    Success,
    /// Failure exit.
    Failure,
}

impl ExitCode {
    /// The value written to the exit device: 0x10 for success, 0x11 for failure.
    pub fn code(self) -> (value: u32)
        ensures
            value == match self {
                ExitCode::Success => 0x10u32,
                ExitCode::Failure => 0x11u32,
            },
    {
        match self {
            ExitCode::Success => 0x10,
            ExitCode::Failure => 0x11,
        }
    }
}

} // verus!
