use kernel_core::device::pci::classes::{
    BridgeDeviceSubClass, Class, DisplaySubClass, MassStorageSubClass, MemorySubClass,
    NetworkSubClass, SerialBusSubClass,
};
use kernel_core::device::pci::error::PciError;

#[test]
fn class_codes_stand_for_their_classes() {
    assert_eq!(Class::from_u8(0x00, 0x42), Class::Unclassified(0x42));
    assert_eq!(
        Class::from_u8(0x01, 0x08),
        Class::MassStorageController(MassStorageSubClass::NonVolatileMemory)
    );
    assert_eq!(Class::from_u8(0x02, 0x00), Class::NetworkController(NetworkSubClass::from_u8(0)));
    assert_eq!(Class::from_u8(0x05, 0x80), Class::MemoryController(MemorySubClass::Other));
    assert_eq!(Class::from_u8(0x14, 0x03), Class::Unknown { class: 0x14, subclass: 0x03 });
    assert_eq!(Class::from_u8(0xff, 0x00), Class::Unknown { class: 0xff, subclass: 0x00 });
}

#[test]
fn class_code_survives_a_round_trip() {
    for val in 0..=255u8 {
        for sub in [0u8, 1, 0x80, 0xff] {
            assert_eq!(Class::from_u8(val, sub).to_u8(), val);
        }
    }
}

#[test]
fn subclass_code_survives_a_round_trip() {
    for val in 0..=255u8 {
        assert_eq!(MassStorageSubClass::from_u8(val).to_u8(), val);
        assert_eq!(NetworkSubClass::from_u8(val).to_u8(), val);
        assert_eq!(DisplaySubClass::from_u8(val).to_u8(), val);
        assert_eq!(MemorySubClass::from_u8(val).to_u8(), val);
        assert_eq!(BridgeDeviceSubClass::from_u8(val).to_u8(), val);
        assert_eq!(SerialBusSubClass::from_u8(val).to_u8(), val);
    }
}

#[test]
fn mass_storage_subclasses() {
    assert_eq!(MassStorageSubClass::from_u8(0x00), MassStorageSubClass::SCSI);
    assert_eq!(MassStorageSubClass::from_u8(0x06), MassStorageSubClass::SATA);
    assert_eq!(MassStorageSubClass::from_u8(0x80), MassStorageSubClass::Other);
    assert_eq!(MassStorageSubClass::from_u8(0x09), MassStorageSubClass::Unknown(0x09));
    assert_eq!(MassStorageSubClass::SAS.to_u8(), 0x07);
    assert_eq!(MassStorageSubClass::Unknown(0x33).to_u8(), 0x33);
}

#[test]
fn memory_subclasses() {
    assert_eq!(MemorySubClass::from_u8(0x00), MemorySubClass::RAMController);
    assert_eq!(MemorySubClass::from_u8(0x01), MemorySubClass::FlashController);
    assert_eq!(MemorySubClass::from_u8(0x02), MemorySubClass::Unknown(0x02));
    assert_eq!(MemorySubClass::Other.to_u8(), 0x80);
}

#[test]
fn pci_errors_describe_themselves() {
    assert_eq!(PciError::InitFailed.message(), "Failed to initialize PCI device hub");
    assert_eq!(PciError::DeviceNotFound.message(), "Device not found");
    assert_eq!(PciError::DriverAlreadyRegistered.message(), "Driver already registered");
    assert_eq!(PciError::DriverNotFound.message(), "Driver not found");
}
