//! The PCI bus: device classes and errors.

pub mod caps;
pub mod classes;
pub mod config;
pub mod error;
