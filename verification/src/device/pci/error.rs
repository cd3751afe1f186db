//! Errors of PCI operations.

use vstd::prelude::*;

verus! {

/// Error type returned by various PCI operations.
#[derive(Debug, Clone, Copy, PartialEq, Eq, Structural)]
pub enum PciError {
    /// Initialization failed.
    InitFailed,
    /// The requested device address does not belong to a registered device.
    DeviceNotFound,
    /// The driver is already registered.
    DriverAlreadyRegistered,
    /// The driver is not registered.
    DriverNotFound,
}

impl PciError {
    /// The text that describes the error.
    pub open spec fn message_spec(self) -> Seq<char> {
        match self {
            PciError::InitFailed => "Failed to initialize PCI device hub"@,
            PciError::DeviceNotFound => "Device not found"@,
            PciError::DriverAlreadyRegistered => "Driver already registered"@,
            PciError::DriverNotFound => "Driver not found"@,
        }
    }

    /// The text that describes the error.
    pub fn message(&self) -> (text: &'static str)
        ensures
            text@ == self.message_spec(),
    {
        match self {
            PciError::InitFailed => "Failed to initialize PCI device hub",
            PciError::DeviceNotFound => "Device not found",
            PciError::DriverAlreadyRegistered => "Driver already registered",
            PciError::DriverNotFound => "Driver not found",
        }
    }
}

} // verus!
