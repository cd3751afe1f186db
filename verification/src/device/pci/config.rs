//! Where the configuration space of a PCI function lies in the
//! memory-mapped window.

use vstd::prelude::*;

verus! {

/// PCIe ECAM (MMCONFIG) configuration space access.
///
/// This provides memory-mapped access to PCI configuration space
/// as defined by the PCI Express specification.
#[derive(Debug, Clone, Copy, PartialEq, Eq, Structural)]
pub struct PciConfig {
    base_address: u64,
}

impl PciConfig {
    /// The address at which the window starts.
    pub closed spec fn base(&self) -> u64 {
        self.base_address
    }

    /// Create a new ECAM config accessor.
    ///
    /// `base_address` must point to the mapped ECAM region.
    pub fn new(base_address: u64) -> (config: Self)
        ensures
            config.base() == base_address,
    {
        Self { base_address }
    }

    /// The address at which the window starts.
    pub fn base_address(&self) -> (base: u64)
        ensures
            base == self.base(),
    {
        self.base_address
    }

    /// The address of the 32-bit register at `offset` of a function: each
    /// bus takes 1 MiB of the window, each device 32 KiB, each function
    /// 4 KiB, and the offset is taken down to a multiple of four below 4096.
    pub fn ecam_address(&self, bus: u8, device: u8, function: u8, offset: u16) -> (addr: u64)
        requires
            device < 32,
            function < 8,
            self.base() + 0x1000_0000 <= u64::MAX,
        ensures
            addr == self.base() + bus * 0x10_0000 + device * 0x8000 + function * 0x1000 + (offset
                % 4096) / 4 * 4,
    {
        let bus = bus as u64;
        let device = device as u64;
        let function = function as u64;
        let register = offset as u64;
        assert(bus << 20 == bus * 0x10_0000) by (bit_vector)
            requires
                bus < 256,
        ;
        assert(device << 15 == device * 0x8000) by (bit_vector)
            requires
                device < 32,
        ;
        assert(function << 12 == function * 0x1000) by (bit_vector)
            requires
                function < 8,
        ;
        assert(register & 0xFFC == (register % 4096) / 4 * 4) by (bit_vector);
        self.base_address + (bus << 20) + (device << 15) + (function << 12) + (register & 0xFFC)
    }
}

} // verus!
