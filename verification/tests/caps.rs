use kernel_core::device::pci::caps::{
    AerCap, MsiCap, MsixCap, PciCapabilities, PcieCap, PowerManagementCap, VendorCap,
    CONFIG_WORDS, LEGACY_STEPS, MAX_VENDOR_CAPS,
};

fn empty_config() -> Vec<u32> {
    vec![0; CONFIG_WORDS]
}

fn set(config: &mut Vec<u32>, offset: usize, word: u32) {
    config[offset / 4] = word;
}

#[test]
fn configuration_space_without_capabilities() {
    let caps = PciCapabilities::new(&empty_config());
    assert_eq!(caps.pmc, None);
    assert_eq!(caps.msi, None);
    assert_eq!(caps.msix, None);
    assert_eq!(caps.pcie, None);
    assert_eq!(caps.aer, None);
    assert!(caps.vendor_caps().is_empty());
    assert!(!caps.overflowed);
}

#[test]
fn legacy_capabilities_are_followed_to_the_end_of_the_list() {
    let mut config = empty_config();
    set(&mut config, 0x34, 0xabcd_ef40);
    set(&mut config, 0x40, 0x9803_5001);
    set(&mut config, 0x50, 0x008a_6005);
    set(&mut config, 0x60, 0x07ff_7011);
    set(&mut config, 0x64, 0x0000_2003);
    set(&mut config, 0x70, 0x0000_8009);
    set(&mut config, 0x80, 0x0000_0010);
    let caps = PciCapabilities::new(&config);
    assert_eq!(
        caps.pmc,
        Some(PowerManagementCap { version: 1, pme_support: false, current_state: 2 })
    );
    assert_eq!(caps.msi, Some(MsiCap { is_64bit: false, multiple_message_cap: 2 }));
    assert_eq!(caps.msix, Some(MsixCap { table_size: 18, table_bir: 3, table_offset: 0x2000 }));
    assert_eq!(
        caps.vendor_caps(),
        vec![VendorCap { offset: 0x70, id: 0x09 }, VendorCap { offset: 0x80, id: 0x10 }]
    );
    assert_eq!(caps.vendor.len(), 2);
    assert!(!caps.overflowed);
}

#[test]
fn extended_capabilities_are_followed_upwards() {
    let mut config = empty_config();
    set(&mut config, 0x100, 0x1401_0001);
    set(&mut config, 0x104, 0x0000_0142);
    set(&mut config, 0x140, 0x1801_0007);
    set(&mut config, 0x144, 0x1111_2222);
    set(&mut config, 0x148, 0x3333_4444);
    set(&mut config, 0x180, 0x2001_120b);
    set(&mut config, 0x200, 0x1001_0003);
    set(&mut config, 0x100 + 0x40 * 3, 0xffff_ffff);
    let caps = PciCapabilities::new(&config);
    assert_eq!(caps.pcie, Some(PcieCap { version: 2, device_type: 0x14, slot_implemented: true }));
    assert_eq!(caps.aer, Some(AerCap { ce_status: 0x1111_2222, ue_status: 0x3333_4444 }));
    // The capability at 0x200 points back to 0x100, where the list ends.
    assert_eq!(
        caps.vendor_caps(),
        vec![VendorCap { offset: 0x180, id: 0x0b }, VendorCap { offset: 0x200, id: 0x03 }]
    );
    assert!(!caps.overflowed);
}

#[test]
fn legacy_list_that_runs_in_a_circle_fills_the_vendor_list() {
    let mut config = empty_config();
    set(&mut config, 0x34, 0x40);
    set(&mut config, 0x40, 0x0000_5009);
    set(&mut config, 0x50, 0x0000_4001);
    set(&mut config, 0x100, 0x0001_0042);
    let caps = PciCapabilities::new(&config);
    assert_eq!(caps.vendor.len(), MAX_VENDOR_CAPS);
    let listed = caps.vendor_caps();
    assert_eq!(listed.len(), 128);
    assert!(listed.iter().all(|cap| *cap == VendorCap { offset: 0x40, id: 0x09 }));
    assert!(caps.pmc.is_some());
    // The extended capability found no room.
    assert!(caps.overflowed);
}

#[test]
fn legacy_list_that_runs_in_a_circle_without_end_is_left() {
    let mut config = empty_config();
    set(&mut config, 0x34, 0x40);
    set(&mut config, 0x40, 0x0000_5001);
    set(&mut config, 0x50, 0x0000_4085);
    let caps = PciCapabilities::new(&config);
    assert!(caps.pmc.is_some());
    assert_eq!(caps.msi, None);
    assert_eq!(caps.vendor.len(), MAX_VENDOR_CAPS);
    assert!(!caps.overflowed);
    assert_eq!(LEGACY_STEPS, 129 * 256);

    // A circle of capabilities that are all decoded never fills the list.
    set(&mut config, 0x50, 0x0000_4005);
    let caps = PciCapabilities::new(&config);
    assert!(caps.pmc.is_some());
    assert_eq!(caps.msi, Some(MsiCap { is_64bit: false, multiple_message_cap: 2 }));
    assert!(caps.vendor_caps().is_empty());
    assert!(!caps.overflowed);
}

#[test]
fn registers_are_read_by_dword() {
    let mut config = empty_config();
    // The pointer names a byte inside the dword at 0x40.
    set(&mut config, 0x34, 0x42);
    set(&mut config, 0x40, 0x0000_0033);
    let caps = PciCapabilities::new(&config);
    assert_eq!(caps.vendor_caps(), vec![VendorCap { offset: 0x42, id: 0x33 }]);
}
