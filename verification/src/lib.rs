//! The portable core of a bare-metal kernel.
//!
//! Its centre is memory management: the free list of physical frames, the
//! address space with its table levels, the heap span and the decisions of
//! the heap primitives, brought up in a fixed order behind one interface.
//! Around it stand the plain-value parts of the kernel's collaborators: PCI
//! classes, configuration addresses and capabilities, calendar time and the
//! real-time clock's registers, random-number generators, interrupt vectors.

pub mod api;
pub mod device;
pub mod interrupts;
pub mod memory;
pub mod qemu;
pub mod rand;
pub mod rtc;
pub mod sync;
pub mod time;
