//! Interrupt vectors of the kernel's own devices.

use vstd::prelude::*;

verus! {

/// The first vector past those that the processor keeps for exceptions.
pub const INTERRUPT_OFFSET: u8 = 32;

/// An interrupt line of the kernel, counted from `INTERRUPT_OFFSET`.
#[derive(Debug, Clone, Copy, PartialEq, Eq, Structural)]
pub enum InterruptVector {
    /// The timer: line 0.
    Timer,
    /// The keyboard: line 1.
    Keyboard,
    /// The interrupt controller's error line: 19.
    Error,
    /// The spurious-interrupt line: 31.
    Spurious,
}

impl InterruptVector {
    /// The line of the interrupt.
    pub open spec fn line(self) -> u8 {
        match self {
            InterruptVector::Timer => 0,
            InterruptVector::Keyboard => 1,
            InterruptVector::Error => 19,
            InterruptVector::Spurious => 31,
        }
    }

    /// The vector under which the processor raises the interrupt.
    pub fn with_offset(self) -> (vector: u8)
        ensures
            vector == self.line() + INTERRUPT_OFFSET,
            32 <= vector < 64,
    {
        let line: u8 = match self {
            InterruptVector::Timer => 0,
            InterruptVector::Keyboard => 1,
            InterruptVector::Error => 19,
            InterruptVector::Spurious => 31,
        };
        line + INTERRUPT_OFFSET
    }
}

} // verus!
