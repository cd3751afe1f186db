use kernel_core::device::pci::caps::{CapHeader, MsiCap, MsixCap, PcieCap, PowerManagementCap};
use kernel_core::device::pci::config::PciConfig;
use kernel_core::interrupts::{InterruptVector, INTERRUPT_OFFSET};
use kernel_core::memory::allocator::{handle_oom, Layout};
use kernel_core::memory::MemoryError;
use kernel_core::qemu::{ExitCode, EXIT_PORT};

#[test]
fn interrupt_vectors_start_at_the_offset() {
    assert_eq!(INTERRUPT_OFFSET, 32);
    assert_eq!(InterruptVector::Timer.with_offset(), 32);
    assert_eq!(InterruptVector::Keyboard.with_offset(), 33);
    assert_eq!(InterruptVector::Error.with_offset(), 51);
    assert_eq!(InterruptVector::Spurious.with_offset(), 63);
}

#[test]
fn exit_codes() {
    assert_eq!(EXIT_PORT, 0xf4);
    assert_eq!(ExitCode::Success.code(), 0x10);
    assert_eq!(ExitCode::Failure.code(), 0x11);
}

#[test]
fn out_of_memory_hook_lets_the_request_fail() {
    assert_eq!(handle_oom(Layout { size: 64, align: 8 }), Err(MemoryError::OutOfHeapMemory));
}

#[test]
fn power_management_capability() {
    let cap = PowerManagementCap::from_word(0x0000_9803);
    assert_eq!(cap, PowerManagementCap { version: 3, pme_support: true, current_state: 3 });
    let cap = PowerManagementCap::from_word(0xffff_7ff8 & !0x1800);
    assert_eq!(cap, PowerManagementCap { version: 0, pme_support: false, current_state: 0 });
    assert_eq!(PowerManagementCap::from_word(0x0800).current_state, 1);
}

#[test]
fn msi_capability() {
    assert_eq!(MsiCap::from_word(0x8a), MsiCap { is_64bit: true, multiple_message_cap: 5 });
    assert_eq!(MsiCap::from_word(0x0e), MsiCap { is_64bit: false, multiple_message_cap: 7 });
    assert_eq!(MsiCap::from_word(0xffff_ff71), MsiCap { is_64bit: false, multiple_message_cap: 0 });
}

#[test]
fn msix_capability() {
    assert_eq!(
        MsixCap::from_words(0x0000_07ff, 0x0000_2003),
        MsixCap { table_size: 2048, table_bir: 3, table_offset: 0x2000 }
    );
    assert_eq!(
        MsixCap::from_words(0xffff_f800, 0xffff_ffff),
        MsixCap { table_size: 1, table_bir: 7, table_offset: 0xffff_fff8 }
    );
}

#[test]
fn pcie_capability() {
    assert_eq!(
        PcieCap::from_word(0x0000_0142),
        PcieCap { version: 2, device_type: 0x14, slot_implemented: true }
    );
    assert_eq!(
        PcieCap::from_word(0xffff_fe00),
        PcieCap { version: 0, device_type: 0, slot_implemented: false }
    );
}

#[test]
fn capability_headers() {
    assert_eq!(CapHeader::legacy(0xabcd_5011), CapHeader { id: 0x11, next: 0x50 });
    assert_eq!(CapHeader::legacy(0), CapHeader { id: 0, next: 0 });
    assert_eq!(CapHeader::extended(0x1401_0001), CapHeader { id: 0x0001, next: 0x140 });
    assert_eq!(CapHeader::extended(0xfff0_ffff), CapHeader { id: 0xffff, next: 0xfff });
}

#[test]
fn configuration_registers_lie_by_bus_device_and_function() {
    let config = PciConfig::new(0xe000_0000);
    assert_eq!(config.base_address(), 0xe000_0000);
    assert_eq!(config.ecam_address(0, 0, 0, 0), 0xe000_0000);
    assert_eq!(config.ecam_address(1, 0, 0, 0), 0xe010_0000);
    assert_eq!(config.ecam_address(0, 1, 0, 0), 0xe000_8000);
    assert_eq!(config.ecam_address(0, 0, 1, 0), 0xe000_1000);
    assert_eq!(config.ecam_address(255, 31, 7, 0xffc), 0xefff_fffc);
    assert_eq!(config.ecam_address(2, 3, 4, 0x37), 0xe000_0000 + 0x20_0000 + 0x1_8000 + 0x4000 + 0x34);
    assert_eq!(config.ecam_address(0, 0, 0, 0x1003), 0xe000_0000);
}
