//! Devices of the machine.

pub mod pci;
