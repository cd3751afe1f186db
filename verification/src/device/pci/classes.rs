//! PCI base classes and subclasses, and their raw codes.

use vstd::prelude::*;

verus! {

/// Represents the PCI Base Class field.
#[derive(Debug, Clone, Copy, PartialEq, Eq, Structural)]
pub enum Class {
    /// Unclassified device
    Unclassified(u8),
    /// Mass Storage Controller
    MassStorageController(MassStorageSubClass),
    /// Network Controller
    NetworkController(NetworkSubClass),
    /// Display Controller
    DisplayController(DisplaySubClass),
    /// Multimedia Controller
    MultimediaController(MultimediaSubClass),
    /// Memory Controller
    MemoryController(MemorySubClass),
    /// Bridge Device
    BridgeDevice(BridgeDeviceSubClass),
    /// Simple Communication Controller
    SimpleCommunicationController(SimpleCommunicationSubClass),
    /// Base System Peripheral
    BaseSystemPeripheral(BaseSystemPeripheralSubClass),
    /// Input Device Controller
    InputDeviceController(InputDeviceSubClass),
    /// Docking Station
    DockingStation(DockingStationSubClass),
    /// Processor
    Processor(ProcessorSubClass),
    /// Serial Bus Controller
    SerialBusController(SerialBusSubClass),
    /// Wireless Controller
    WirelessController(WirelessSubClass),
    /// Intelligent I/O Controller
    IntelligentIOController(IntelligentIOSubClass),
    /// Satellite Communication Controller
    SatelliteCommunicationController(SatelliteCommunicationSubClass),
    /// Encryption/Decryption Controller
    EncryptionController(EncryptionSubClass),
    /// Signal Processing Controller
    SignalProcessingController(SignalProcessingSubClass),
    /// Processing Accelerator
    ProcessingAccelerator(ProcessingAcceleratorSubClass),
    /// Non-Essential Instrumentation
    NonEssentialInstrumentation(NonEssentialInstrumentationSubClass),
    /// Unknown or vendor-specific class
    Unknown {
        /// The device base class.
        class: u8,
        /// The device subclass.
        subclass: u8,
    },
}

impl Class {
    /// The class that the raw base-class code `val` and subclass code `sub` stand for.
    pub open spec fn spec_from_u8(val: u8, sub: u8) -> Self {
        if val == 0x00 {
            Self::Unclassified(sub)
        } else if val == 0x01 {
            Self::MassStorageController(MassStorageSubClass::spec_from_u8(sub))
        } else if val == 0x02 {
            Self::NetworkController(NetworkSubClass::spec_from_u8(sub))
        } else if val == 0x03 {
            Self::DisplayController(DisplaySubClass::spec_from_u8(sub))
        } else if val == 0x04 {
            Self::MultimediaController(MultimediaSubClass::spec_from_u8(sub))
        } else if val == 0x05 {
            Self::MemoryController(MemorySubClass::spec_from_u8(sub))
        } else if val == 0x06 {
            Self::BridgeDevice(BridgeDeviceSubClass::spec_from_u8(sub))
        } else if val == 0x07 {
            Self::SimpleCommunicationController(SimpleCommunicationSubClass::spec_from_u8(sub))
        } else if val == 0x08 {
            Self::BaseSystemPeripheral(BaseSystemPeripheralSubClass::spec_from_u8(sub))
        } else if val == 0x09 {
            Self::InputDeviceController(InputDeviceSubClass::spec_from_u8(sub))
        } else if val == 0x0A {
            Self::DockingStation(DockingStationSubClass::spec_from_u8(sub))
        } else if val == 0x0B {
            Self::Processor(ProcessorSubClass::spec_from_u8(sub))
        } else if val == 0x0C {
            Self::SerialBusController(SerialBusSubClass::spec_from_u8(sub))
        } else if val == 0x0D {
            Self::WirelessController(WirelessSubClass::spec_from_u8(sub))
        } else if val == 0x0E {
            Self::IntelligentIOController(IntelligentIOSubClass::spec_from_u8(sub))
        } else if val == 0x0F {
            Self::SatelliteCommunicationController(SatelliteCommunicationSubClass::spec_from_u8(sub))
        } else if val == 0x10 {
            Self::EncryptionController(EncryptionSubClass::spec_from_u8(sub))
        } else if val == 0x11 {
            Self::SignalProcessingController(SignalProcessingSubClass::spec_from_u8(sub))
        } else if val == 0x12 {
            Self::ProcessingAccelerator(ProcessingAcceleratorSubClass::spec_from_u8(sub))
        } else if val == 0x13 {
            Self::NonEssentialInstrumentation(NonEssentialInstrumentationSubClass::spec_from_u8(sub))
        } else {
            Self::Unknown { class: val, subclass: sub }
        }
    }

    /// The raw base-class code of a class.
    pub open spec fn spec_to_u8(self) -> u8 {
        match self {
            Self::Unclassified(_) => 0x00,
            Self::MassStorageController(_) => 0x01,
            Self::NetworkController(_) => 0x02,
            Self::DisplayController(_) => 0x03,
            Self::MultimediaController(_) => 0x04,
            Self::MemoryController(_) => 0x05,
            Self::BridgeDevice(_) => 0x06,
            Self::SimpleCommunicationController(_) => 0x07,
            Self::BaseSystemPeripheral(_) => 0x08,
            Self::InputDeviceController(_) => 0x09,
            Self::DockingStation(_) => 0x0A,
            Self::Processor(_) => 0x0B,
            Self::SerialBusController(_) => 0x0C,
            Self::WirelessController(_) => 0x0D,
            Self::IntelligentIOController(_) => 0x0E,
            Self::SatelliteCommunicationController(_) => 0x0F,
            Self::EncryptionController(_) => 0x10,
            Self::SignalProcessingController(_) => 0x11,
            Self::ProcessingAccelerator(_) => 0x12,
            Self::NonEssentialInstrumentation(_) => 0x13,
            Self::Unknown { class, .. } => class,
        }
    }

    /// Reads a class from its raw base-class and subclass codes.
    pub fn from_u8(val: u8, sub: u8) -> (class: Self)
        ensures
            class == Self::spec_from_u8(val, sub),
    {
        match val {
            0x00 => Self::Unclassified(sub),
            0x01 => Self::MassStorageController(MassStorageSubClass::from_u8(sub)),
            0x02 => Self::NetworkController(NetworkSubClass::from_u8(sub)),
            0x03 => Self::DisplayController(DisplaySubClass::from_u8(sub)),
            0x04 => Self::MultimediaController(MultimediaSubClass::from_u8(sub)),
            0x05 => Self::MemoryController(MemorySubClass::from_u8(sub)),
            0x06 => Self::BridgeDevice(BridgeDeviceSubClass::from_u8(sub)),
            0x07 => Self::SimpleCommunicationController(SimpleCommunicationSubClass::from_u8(sub)),
            0x08 => Self::BaseSystemPeripheral(BaseSystemPeripheralSubClass::from_u8(sub)),
            0x09 => Self::InputDeviceController(InputDeviceSubClass::from_u8(sub)),
            0x0A => Self::DockingStation(DockingStationSubClass::from_u8(sub)),
            0x0B => Self::Processor(ProcessorSubClass::from_u8(sub)),
            0x0C => Self::SerialBusController(SerialBusSubClass::from_u8(sub)),
            0x0D => Self::WirelessController(WirelessSubClass::from_u8(sub)),
            0x0E => Self::IntelligentIOController(IntelligentIOSubClass::from_u8(sub)),
            0x0F => Self::SatelliteCommunicationController(SatelliteCommunicationSubClass::from_u8(sub)),
            0x10 => Self::EncryptionController(EncryptionSubClass::from_u8(sub)),
            0x11 => Self::SignalProcessingController(SignalProcessingSubClass::from_u8(sub)),
            0x12 => Self::ProcessingAccelerator(ProcessingAcceleratorSubClass::from_u8(sub)),
            0x13 => Self::NonEssentialInstrumentation(NonEssentialInstrumentationSubClass::from_u8(sub)),
            other => Self::Unknown { class: other, subclass: sub },
        }
    }

    /// The raw base-class code of a class.
    pub fn to_u8(&self) -> (val: u8)
        ensures
            val == self.spec_to_u8(),
    {
        match *self {
            Self::Unclassified(_) => 0x00,
            Self::MassStorageController(_) => 0x01,
            Self::NetworkController(_) => 0x02,
            Self::DisplayController(_) => 0x03,
            Self::MultimediaController(_) => 0x04,
            Self::MemoryController(_) => 0x05,
            Self::BridgeDevice(_) => 0x06,
            Self::SimpleCommunicationController(_) => 0x07,
            Self::BaseSystemPeripheral(_) => 0x08,
            Self::InputDeviceController(_) => 0x09,
            Self::DockingStation(_) => 0x0A,
            Self::Processor(_) => 0x0B,
            Self::SerialBusController(_) => 0x0C,
            Self::WirelessController(_) => 0x0D,
            Self::IntelligentIOController(_) => 0x0E,
            Self::SatelliteCommunicationController(_) => 0x0F,
            Self::EncryptionController(_) => 0x10,
            Self::SignalProcessingController(_) => 0x11,
            Self::ProcessingAccelerator(_) => 0x12,
            Self::NonEssentialInstrumentation(_) => 0x13,
            Self::Unknown { class: val, .. } => val,
        }
    }
}

/// Reading a base-class code and writing it back gives the code read,
/// whatever the subclass code.
pub proof fn lemma_class_round_trip(val: u8, sub: u8)
    ensures
        Class::spec_from_u8(val, sub).spec_to_u8() == val,
{
}

/// PCI Subclasses for **Mass Storage Controller** (Base Class `0x01`).
#[derive(Debug, Clone, Copy, PartialEq, Eq, Structural)]
pub enum MassStorageSubClass {
    /// SCSI storage controller
    SCSI,
    /// IDE storage controller
    IDE,
    /// Floppy disk controller
    Floppy,
    /// IPI storage controller
    IPI,
    /// RAID controller
    RAID,
    /// ATA controller
    ATA,
    /// SATA controller
    SATA,
    /// SAS controller
    SAS,
    /// Non-Volatile Memory controller (e.g., NVMe)
    NonVolatileMemory,
    /// Other subclass defined by vendor or reserved
    Other,
    /// Unknown or unrecognized subclass
    Unknown(u8),
}

impl MassStorageSubClass {
    /// The subclass that the raw code `val` stands for.
    pub open spec fn spec_from_u8(val: u8) -> Self {
        if val == 0x00 {
            Self::SCSI
        } else if val == 0x01 {
            Self::IDE
        } else if val == 0x02 {
            Self::Floppy
        } else if val == 0x03 {
            Self::IPI
        } else if val == 0x04 {
            Self::RAID
        } else if val == 0x05 {
            Self::ATA
        } else if val == 0x06 {
            Self::SATA
        } else if val == 0x07 {
            Self::SAS
        } else if val == 0x08 {
            Self::NonVolatileMemory
        } else if val == 0x80 {
            Self::Other
        } else {
            Self::Unknown(val)
        }
    }

    /// The raw code of a subclass.
    pub open spec fn spec_to_u8(self) -> u8 {
        match self {
            Self::SCSI => 0x00,
            Self::IDE => 0x01,
            Self::Floppy => 0x02,
            Self::IPI => 0x03,
            Self::RAID => 0x04,
            Self::ATA => 0x05,
            Self::SATA => 0x06,
            Self::SAS => 0x07,
            Self::NonVolatileMemory => 0x08,
            Self::Other => 0x80,
            Self::Unknown(val) => val,
        }
    }

    /// Reads a subclass from its raw code.
    pub fn from_u8(val: u8) -> (subclass: Self)
        ensures
            subclass == Self::spec_from_u8(val),
    {
        match val {
            0x00 => Self::SCSI,
            0x01 => Self::IDE,
            0x02 => Self::Floppy,
            0x03 => Self::IPI,
            0x04 => Self::RAID,
            0x05 => Self::ATA,
            0x06 => Self::SATA,
            0x07 => Self::SAS,
            0x08 => Self::NonVolatileMemory,
            0x80 => Self::Other,
            other => Self::Unknown(other),
        }
    }

    /// The raw code of a subclass.
    pub fn to_u8(&self) -> (val: u8)
        ensures
            val == self.spec_to_u8(),
    {
        match *self {
            Self::SCSI => 0x00,
            Self::IDE => 0x01,
            Self::Floppy => 0x02,
            Self::IPI => 0x03,
            Self::RAID => 0x04,
            Self::ATA => 0x05,
            Self::SATA => 0x06,
            Self::SAS => 0x07,
            Self::NonVolatileMemory => 0x08,
            Self::Other => 0x80,
            Self::Unknown(val) => val,
        }
    }
}

/// Reading a code and writing it back gives the code read.
pub proof fn lemma_mass_storage_sub_class_round_trip(val: u8)
    ensures
        MassStorageSubClass::spec_from_u8(val).spec_to_u8() == val,
{
}

/// PCI Subclasses for Network Controller (BaseClass `0x02`)
#[derive(Debug, Clone, Copy, PartialEq, Eq, Structural)]
pub enum NetworkSubClass {
    /// Ethernet controller.
    Ethernet,
    /// Token ring controller.
    TokenRing,
    /// FDDI controller.
    FDDI,
    /// ATM controller.
    ATM,
    /// ISDN controller.
    ISDN,
    /// World Fip controller
    WorldFip,
    /// PICMG controller.
    PICMG,
    /// Infiniband controller.
    Infiniband,
    /// Other controller.
    Other,
    /// Unknown controller.
    Unknown(u8),
}

impl NetworkSubClass {
    /// The subclass that the raw code `val` stands for.
    pub open spec fn spec_from_u8(val: u8) -> Self {
        if val == 0x00 {
            Self::Ethernet
        } else if val == 0x01 {
            Self::TokenRing
        } else if val == 0x02 {
            Self::FDDI
        } else if val == 0x03 {
            Self::ATM
        } else if val == 0x04 {
            Self::ISDN
        } else if val == 0x05 {
            Self::WorldFip
        } else if val == 0x06 {
            Self::PICMG
        } else if val == 0x07 {
            Self::Infiniband
        } else if val == 0x80 {
            Self::Other
        } else {
            Self::Unknown(val)
        }
    }

    /// The raw code of a subclass.
    pub open spec fn spec_to_u8(self) -> u8 {
        match self {
            Self::Ethernet => 0x00,
            Self::TokenRing => 0x01,
            Self::FDDI => 0x02,
            Self::ATM => 0x03,
            Self::ISDN => 0x04,
            Self::WorldFip => 0x05,
            Self::PICMG => 0x06,
            Self::Infiniband => 0x07,
            Self::Other => 0x80,
            Self::Unknown(val) => val,
        }
    }

    /// Reads a subclass from its raw code.
    pub fn from_u8(val: u8) -> (subclass: Self)
        ensures
            subclass == Self::spec_from_u8(val),
    {
        match val {
            0x00 => Self::Ethernet,
            0x01 => Self::TokenRing,
            0x02 => Self::FDDI,
            0x03 => Self::ATM,
            0x04 => Self::ISDN,
            0x05 => Self::WorldFip,
            0x06 => Self::PICMG,
            0x07 => Self::Infiniband,
            0x80 => Self::Other,
            other => Self::Unknown(other),
        }
    }

    /// The raw code of a subclass.
    pub fn to_u8(&self) -> (val: u8)
        ensures
            val == self.spec_to_u8(),
    {
        match *self {
            Self::Ethernet => 0x00,
            Self::TokenRing => 0x01,
            Self::FDDI => 0x02,
            Self::ATM => 0x03,
            Self::ISDN => 0x04,
            Self::WorldFip => 0x05,
            Self::PICMG => 0x06,
            Self::Infiniband => 0x07,
            Self::Other => 0x80,
            Self::Unknown(val) => val,
        }
    }
}

/// Reading a code and writing it back gives the code read.
pub proof fn lemma_network_sub_class_round_trip(val: u8)
    ensures
        NetworkSubClass::spec_from_u8(val).spec_to_u8() == val,
{
}

/// PCI Subclasses for Display Controller (BaseClass 0x03)
#[derive(Debug, Clone, Copy, PartialEq, Eq, Structural)]
pub enum DisplaySubClass {
    /// VGA-Compatible controller.
    VGACompatible,
    /// XGA controller.
    XGA,
    /// 3D controller.
    _3DController,
    /// Other controller.
    Other,
    /// Unknown controller.
    Unknown(u8),
}

impl DisplaySubClass {
    /// The subclass that the raw code `val` stands for.
    pub open spec fn spec_from_u8(val: u8) -> Self {
        if val == 0x00 {
            Self::VGACompatible
        } else if val == 0x01 {
            Self::XGA
        } else if val == 0x02 {
            Self::_3DController
        } else if val == 0x80 {
            Self::Other
        } else {
            Self::Unknown(val)
        }
    }

    /// The raw code of a subclass.
    pub open spec fn spec_to_u8(self) -> u8 {
        match self {
            Self::VGACompatible => 0x00,
            Self::XGA => 0x01,
            Self::_3DController => 0x02,
            Self::Other => 0x80,
            Self::Unknown(val) => val,
        }
    }

    /// Reads a subclass from its raw code.
    pub fn from_u8(val: u8) -> (subclass: Self)
        ensures
            subclass == Self::spec_from_u8(val),
    {
        match val {
            0x00 => Self::VGACompatible,
            0x01 => Self::XGA,
            0x02 => Self::_3DController,
            0x80 => Self::Other,
            other => Self::Unknown(other),
        }
    }

    /// The raw code of a subclass.
    pub fn to_u8(&self) -> (val: u8)
        ensures
            val == self.spec_to_u8(),
    {
        match *self {
            Self::VGACompatible => 0x00,
            Self::XGA => 0x01,
            Self::_3DController => 0x02,
            Self::Other => 0x80,
            Self::Unknown(val) => val,
        }
    }
}

/// Reading a code and writing it back gives the code read.
pub proof fn lemma_display_sub_class_round_trip(val: u8)
    ensures
        DisplaySubClass::spec_from_u8(val).spec_to_u8() == val,
{
}

/// PCI Subclasses for Multimedia Controller (BaseClass 0x04)
#[derive(Debug, Clone, Copy, PartialEq, Eq, Structural)]
pub enum MultimediaSubClass {
    /// Video controller.
    Video,
    /// Audio controller.
    Audio,
    /// Computer peripherals controller.
    ComputerPeripherals,
    /// Other controller.
    Other,
    /// Unknown controller.
    Unknown(u8),
}

impl MultimediaSubClass {
    /// The subclass that the raw code `val` stands for.
    pub open spec fn spec_from_u8(val: u8) -> Self {
        if val == 0x00 {
            Self::Video
        } else if val == 0x01 {
            Self::Audio
        } else if val == 0x02 {
            Self::ComputerPeripherals
        } else if val == 0x80 {
            Self::Other
        } else {
            Self::Unknown(val)
        }
    }

    /// The raw code of a subclass.
    pub open spec fn spec_to_u8(self) -> u8 {
        match self {
            Self::Video => 0x00,
            Self::Audio => 0x01,
            Self::ComputerPeripherals => 0x02,
            Self::Other => 0x80,
            Self::Unknown(val) => val,
        }
    }

    /// Reads a subclass from its raw code.
    pub fn from_u8(val: u8) -> (subclass: Self)
        ensures
            subclass == Self::spec_from_u8(val),
    {
        match val {
            0x00 => Self::Video,
            0x01 => Self::Audio,
            0x02 => Self::ComputerPeripherals,
            0x80 => Self::Other,
            other => Self::Unknown(other),
        }
    }

    /// The raw code of a subclass.
    pub fn to_u8(&self) -> (val: u8)
        ensures
            val == self.spec_to_u8(),
    {
        match *self {
            Self::Video => 0x00,
            Self::Audio => 0x01,
            Self::ComputerPeripherals => 0x02,
            Self::Other => 0x80,
            Self::Unknown(val) => val,
        }
    }
}

/// Reading a code and writing it back gives the code read.
pub proof fn lemma_multimedia_sub_class_round_trip(val: u8)
    ensures
        MultimediaSubClass::spec_from_u8(val).spec_to_u8() == val,
{
}

/// PCI Subclasses for Memory Controller (BaseClass 0x05)
#[derive(Debug, Clone, Copy, PartialEq, Eq, Structural)]
pub enum MemorySubClass {
    /// RAM controller.
    RAMController,
    /// Flash controller.
    FlashController,
    /// Other controller.
    Other,
    /// Unknown controller.
    Unknown(u8),
}

impl MemorySubClass {
    /// The subclass that the raw code `val` stands for.
    pub open spec fn spec_from_u8(val: u8) -> Self {
        if val == 0x00 {
            Self::RAMController
        } else if val == 0x01 {
            Self::FlashController
        } else if val == 0x80 {
            Self::Other
        } else {
            Self::Unknown(val)
        }
    }

    /// The raw code of a subclass.
    pub open spec fn spec_to_u8(self) -> u8 {
        match self {
            Self::RAMController => 0x00,
            Self::FlashController => 0x01,
            Self::Other => 0x80,
            Self::Unknown(val) => val,
        }
    }

    /// Reads a subclass from its raw code.
    pub fn from_u8(val: u8) -> (subclass: Self)
        ensures
            subclass == Self::spec_from_u8(val),
    {
        match val {
            0x00 => Self::RAMController,
            0x01 => Self::FlashController,
            0x80 => Self::Other,
            other => Self::Unknown(other),
        }
    }

    /// The raw code of a subclass.
    pub fn to_u8(&self) -> (val: u8)
        ensures
            val == self.spec_to_u8(),
    {
        match *self {
            Self::RAMController => 0x00,
            Self::FlashController => 0x01,
            Self::Other => 0x80,
            Self::Unknown(val) => val,
        }
    }
}

/// Reading a code and writing it back gives the code read.
pub proof fn lemma_memory_sub_class_round_trip(val: u8)
    ensures
        MemorySubClass::spec_from_u8(val).spec_to_u8() == val,
{
}

/// PCI Subclasses for Bridge Device (BaseClass 0x06)
#[derive(Debug, Clone, Copy, PartialEq, Eq, Structural)]
pub enum BridgeDeviceSubClass {
    /// Host bridge.
    Host,
    /// ISA bridge.
    ISA,
    /// EISA bridge.
    EISA,
    /// Micro Channel bridge.
    MicroChannel,
    /// PCI to PCI bridge.
    PCItoPCI,
    /// PCMCIA bridge.
    PCMCIA,
    /// NuBus bridge.
    NuBus,
    /// CardBus bridge.
    CardBus,
    /// RAID controller bridge.
    RACEway,
    /// Other bridge.
    Other,
    /// Unknown bridge.
    Unknown(u8),
}

impl BridgeDeviceSubClass {
    /// The subclass that the raw code `val` stands for.
    pub open spec fn spec_from_u8(val: u8) -> Self {
        if val == 0x00 {
            Self::Host
        } else if val == 0x01 {
            Self::ISA
        } else if val == 0x02 {
            Self::EISA
        } else if val == 0x03 {
            Self::MicroChannel
        } else if val == 0x04 {
            Self::PCItoPCI
        } else if val == 0x05 {
            Self::PCMCIA
        } else if val == 0x06 {
            Self::NuBus
        } else if val == 0x07 {
            Self::CardBus
        } else if val == 0x08 {
            Self::RACEway
        } else if val == 0x80 {
            Self::Other
        } else {
            Self::Unknown(val)
        }
    }

    /// The raw code of a subclass.
    pub open spec fn spec_to_u8(self) -> u8 {
        match self {
            Self::Host => 0x00,
            Self::ISA => 0x01,
            Self::EISA => 0x02,
            Self::MicroChannel => 0x03,
            Self::PCItoPCI => 0x04,
            Self::PCMCIA => 0x05,
            Self::NuBus => 0x06,
            Self::CardBus => 0x07,
            Self::RACEway => 0x08,
            Self::Other => 0x80,
            Self::Unknown(val) => val,
        }
    }

    /// Reads a subclass from its raw code.
    pub fn from_u8(val: u8) -> (subclass: Self)
        ensures
            subclass == Self::spec_from_u8(val),
    {
        match val {
            0x00 => Self::Host,
            0x01 => Self::ISA,
            0x02 => Self::EISA,
            0x03 => Self::MicroChannel,
            0x04 => Self::PCItoPCI,
            0x05 => Self::PCMCIA,
            0x06 => Self::NuBus,
            0x07 => Self::CardBus,
            0x08 => Self::RACEway,
            0x80 => Self::Other,
            other => Self::Unknown(other),
        }
    }

    /// The raw code of a subclass.
    pub fn to_u8(&self) -> (val: u8)
        ensures
            val == self.spec_to_u8(),
    {
        match *self {
            Self::Host => 0x00,
            Self::ISA => 0x01,
            Self::EISA => 0x02,
            Self::MicroChannel => 0x03,
            Self::PCItoPCI => 0x04,
            Self::PCMCIA => 0x05,
            Self::NuBus => 0x06,
            Self::CardBus => 0x07,
            Self::RACEway => 0x08,
            Self::Other => 0x80,
            Self::Unknown(val) => val,
        }
    }
}

/// Reading a code and writing it back gives the code read.
pub proof fn lemma_bridge_device_sub_class_round_trip(val: u8)
    ensures
        BridgeDeviceSubClass::spec_from_u8(val).spec_to_u8() == val,
{
}

/// PCI Subclasses for Simple Communication Controller (BaseClass 0x07)
#[derive(Debug, Clone, Copy, PartialEq, Eq, Structural)]
pub enum SimpleCommunicationSubClass {
    /// Serial controller.
    Serial,
    /// Parallel controller.
    Parallel,
    /// Multi-port serial controller.
    MultiPortSerial,
    /// Modem controller.
    Modem,
    /// GPIB controller.
    GPIB,
    /// Smart card controller.
    SmartCard,
    /// Other controller.
    Other,
    /// Unknown controller.
    Unknown(u8),
}

impl SimpleCommunicationSubClass {
    /// The subclass that the raw code `val` stands for.
    pub open spec fn spec_from_u8(val: u8) -> Self {
        if val == 0x00 {
            Self::Serial
        } else if val == 0x01 {
            Self::Parallel
        } else if val == 0x02 {
            Self::MultiPortSerial
        } else if val == 0x03 {
            Self::Modem
        } else if val == 0x04 {
            Self::GPIB
        } else if val == 0x05 {
            Self::SmartCard
        } else if val == 0x80 {
            Self::Other
        } else {
            Self::Unknown(val)
        }
    }

    /// The raw code of a subclass.
    pub open spec fn spec_to_u8(self) -> u8 {
        match self {
            Self::Serial => 0x00,
            Self::Parallel => 0x01,
            Self::MultiPortSerial => 0x02,
            Self::Modem => 0x03,
            Self::GPIB => 0x04,
            Self::SmartCard => 0x05,
            Self::Other => 0x80,
            Self::Unknown(val) => val,
        }
    }

    /// Reads a subclass from its raw code.
    pub fn from_u8(val: u8) -> (subclass: Self)
        ensures
            subclass == Self::spec_from_u8(val),
    {
        match val {
            0x00 => Self::Serial,
            0x01 => Self::Parallel,
            0x02 => Self::MultiPortSerial,
            0x03 => Self::Modem,
            0x04 => Self::GPIB,
            0x05 => Self::SmartCard,
            0x80 => Self::Other,
            other => Self::Unknown(other),
        }
    }

    /// The raw code of a subclass.
    pub fn to_u8(&self) -> (val: u8)
        ensures
            val == self.spec_to_u8(),
    {
        match *self {
            Self::Serial => 0x00,
            Self::Parallel => 0x01,
            Self::MultiPortSerial => 0x02,
            Self::Modem => 0x03,
            Self::GPIB => 0x04,
            Self::SmartCard => 0x05,
            Self::Other => 0x80,
            Self::Unknown(val) => val,
        }
    }
}

/// Reading a code and writing it back gives the code read.
pub proof fn lemma_simple_communication_sub_class_round_trip(val: u8)
    ensures
        SimpleCommunicationSubClass::spec_from_u8(val).spec_to_u8() == val,
{
}

/// PCI Subclasses for Base System Peripheral (BaseClass 0x0B)
#[derive(Debug, Clone, Copy, PartialEq, Eq, Structural)]
pub enum BaseSystemPeripheralSubClass {
    /// PIC peripheral.
    PIC,
    /// DMA peripheral.
    DMAController,
    /// Timer peripheral.
    Timer,
    /// RTC peripheral.
    RTC,
    /// PCI-Hot-Plug peripheral.
    PCIHotPlug,
    /// SD Host peripheral.
    SDHostController,
    /// Other peripheral.
    Other,
    /// Unknown peripheral.
    Unknown(u8),
}

impl BaseSystemPeripheralSubClass {
    /// The subclass that the raw code `val` stands for.
    pub open spec fn spec_from_u8(val: u8) -> Self {
        if val == 0x00 {
            Self::PIC
        } else if val == 0x01 {
            Self::DMAController
        } else if val == 0x02 {
            Self::Timer
        } else if val == 0x03 {
            Self::RTC
        } else if val == 0x04 {
            Self::PCIHotPlug
        } else if val == 0x05 {
            Self::SDHostController
        } else if val == 0x80 {
            Self::Other
        } else {
            Self::Unknown(val)
        }
    }

    /// The raw code of a subclass.
    pub open spec fn spec_to_u8(self) -> u8 {
        match self {
            Self::PIC => 0x00,
            Self::DMAController => 0x01,
            Self::Timer => 0x02,
            Self::RTC => 0x03,
            Self::PCIHotPlug => 0x04,
            Self::SDHostController => 0x05,
            Self::Other => 0x80,
            Self::Unknown(val) => val,
        }
    }

    /// Reads a subclass from its raw code.
    pub fn from_u8(val: u8) -> (subclass: Self)
        ensures
            subclass == Self::spec_from_u8(val),
    {
        match val {
            0x00 => Self::PIC,
            0x01 => Self::DMAController,
            0x02 => Self::Timer,
            0x03 => Self::RTC,
            0x04 => Self::PCIHotPlug,
            0x05 => Self::SDHostController,
            0x80 => Self::Other,
            other => Self::Unknown(other),
        }
    }

    /// The raw code of a subclass.
    pub fn to_u8(&self) -> (val: u8)
        ensures
            val == self.spec_to_u8(),
    {
        match *self {
            Self::PIC => 0x00,
            Self::DMAController => 0x01,
            Self::Timer => 0x02,
            Self::RTC => 0x03,
            Self::PCIHotPlug => 0x04,
            Self::SDHostController => 0x05,
            Self::Other => 0x80,
            Self::Unknown(val) => val,
        }
    }
}

/// Reading a code and writing it back gives the code read.
pub proof fn lemma_base_system_peripheral_sub_class_round_trip(val: u8)
    ensures
        BaseSystemPeripheralSubClass::spec_from_u8(val).spec_to_u8() == val,
{
}

/// PCI Subclasses for Input Device Controller (BaseClass 0x0D)
#[derive(Debug, Clone, Copy, PartialEq, Eq, Structural)]
pub enum InputDeviceSubClass {
    /// Keyboard controller.
    KeyboardController,
    /// Digitizer controller.
    Digitizer,
    /// Mouse controller.
    MouseController,
    /// Other controller.
    Other,
    /// Unknown controller.
    Unknown(u8),
}

impl InputDeviceSubClass {
    /// The subclass that the raw code `val` stands for.
    pub open spec fn spec_from_u8(val: u8) -> Self {
        if val == 0x00 {
            Self::KeyboardController
        } else if val == 0x01 {
            Self::Digitizer
        } else if val == 0x02 {
            Self::MouseController
        } else if val == 0x80 {
            Self::Other
        } else {
            Self::Unknown(val)
        }
    }

    /// The raw code of a subclass.
    pub open spec fn spec_to_u8(self) -> u8 {
        match self {
            Self::KeyboardController => 0x00,
            Self::Digitizer => 0x01,
            Self::MouseController => 0x02,
            Self::Other => 0x80,
            Self::Unknown(val) => val,
        }
    }

    /// Reads a subclass from its raw code.
    pub fn from_u8(val: u8) -> (subclass: Self)
        ensures
            subclass == Self::spec_from_u8(val),
    {
        match val {
            0x00 => Self::KeyboardController,
            0x01 => Self::Digitizer,
            0x02 => Self::MouseController,
            0x80 => Self::Other,
            other => Self::Unknown(other),
        }
    }

    /// The raw code of a subclass.
    pub fn to_u8(&self) -> (val: u8)
        ensures
            val == self.spec_to_u8(),
    {
        match *self {
            Self::KeyboardController => 0x00,
            Self::Digitizer => 0x01,
            Self::MouseController => 0x02,
            Self::Other => 0x80,
            Self::Unknown(val) => val,
        }
    }
}

/// Reading a code and writing it back gives the code read.
pub proof fn lemma_input_device_sub_class_round_trip(val: u8)
    ensures
        InputDeviceSubClass::spec_from_u8(val).spec_to_u8() == val,
{
}

/// PCI Subclasses for Docking Station (BaseClass 0x0E)
#[derive(Debug, Clone, Copy, PartialEq, Eq, Structural)]
pub enum DockingStationSubClass {
    /// Generic docking station.
    Generic,
    /// Other docking station.
    Other,
    /// Unknown docking station.
    Unknown(u8),
}

impl DockingStationSubClass {
    /// The subclass that the raw code `val` stands for.
    pub open spec fn spec_from_u8(val: u8) -> Self {
        if val == 0x00 {
            Self::Generic
        } else if val == 0x80 {
            Self::Other
        } else {
            Self::Unknown(val)
        }
    }

    /// The raw code of a subclass.
    pub open spec fn spec_to_u8(self) -> u8 {
        match self {
            Self::Generic => 0x00,
            Self::Other => 0x80,
            Self::Unknown(val) => val,
        }
    }

    /// Reads a subclass from its raw code.
    pub fn from_u8(val: u8) -> (subclass: Self)
        ensures
            subclass == Self::spec_from_u8(val),
    {
        match val {
            0x00 => Self::Generic,
            0x80 => Self::Other,
            other => Self::Unknown(other),
        }
    }

    /// The raw code of a subclass.
    pub fn to_u8(&self) -> (val: u8)
        ensures
            val == self.spec_to_u8(),
    {
        match *self {
            Self::Generic => 0x00,
            Self::Other => 0x80,
            Self::Unknown(val) => val,
        }
    }
}

/// Reading a code and writing it back gives the code read.
pub proof fn lemma_docking_station_sub_class_round_trip(val: u8)
    ensures
        DockingStationSubClass::spec_from_u8(val).spec_to_u8() == val,
{
}

/// PCI Subclasses for Processor (BaseClass 0x0B)
#[derive(Debug, Clone, Copy, PartialEq, Eq, Structural)]
pub enum ProcessorSubClass {
    /// I386 processor.
    I386,
    /// I486 processor.
    I486,
    /// Pentium processor.
    Pentium,
    /// Alpha processor.
    Alpha,
    /// PowerPC processor.
    PowerPC,
    /// MIPS processor.
    MIPS,
    /// Co processor.
    CoProcessor,
    /// Other processor.
    Other,
    /// Unknown processor.
    Unknown(u8),
}

impl ProcessorSubClass {
    /// The subclass that the raw code `val` stands for.
    pub open spec fn spec_from_u8(val: u8) -> Self {
        if val == 0x00 {
            Self::I386
        } else if val == 0x01 {
            Self::I486
        } else if val == 0x02 {
            Self::Pentium
        } else if val == 0x10 {
            Self::Alpha
        } else if val == 0x20 {
            Self::PowerPC
        } else if val == 0x30 {
            Self::MIPS
        } else if val == 0x40 {
            Self::CoProcessor
        } else if val == 0x80 {
            Self::Other
        } else {
            Self::Unknown(val)
        }
    }

    /// The raw code of a subclass.
    pub open spec fn spec_to_u8(self) -> u8 {
        match self {
            Self::I386 => 0x00,
            Self::I486 => 0x01,
            Self::Pentium => 0x02,
            Self::Alpha => 0x10,
            Self::PowerPC => 0x20,
            Self::MIPS => 0x30,
            Self::CoProcessor => 0x40,
            Self::Other => 0x80,
            Self::Unknown(val) => val,
        }
    }

    /// Reads a subclass from its raw code.
    pub fn from_u8(val: u8) -> (subclass: Self)
        ensures
            subclass == Self::spec_from_u8(val),
    {
        match val {
            0x00 => Self::I386,
            0x01 => Self::I486,
            0x02 => Self::Pentium,
            0x10 => Self::Alpha,
            0x20 => Self::PowerPC,
            0x30 => Self::MIPS,
            0x40 => Self::CoProcessor,
            0x80 => Self::Other,
            other => Self::Unknown(other),
        }
    }

    /// The raw code of a subclass.
    pub fn to_u8(&self) -> (val: u8)
        ensures
            val == self.spec_to_u8(),
    {
        match *self {
            Self::I386 => 0x00,
            Self::I486 => 0x01,
            Self::Pentium => 0x02,
            Self::Alpha => 0x10,
            Self::PowerPC => 0x20,
            Self::MIPS => 0x30,
            Self::CoProcessor => 0x40,
            Self::Other => 0x80,
            Self::Unknown(val) => val,
        }
    }
}

/// Reading a code and writing it back gives the code read.
pub proof fn lemma_processor_sub_class_round_trip(val: u8)
    ensures
        ProcessorSubClass::spec_from_u8(val).spec_to_u8() == val,
{
}

/// PCI Subclasses for Serial Bus Controller (BaseClass 0x0C)
#[derive(Debug, Clone, Copy, PartialEq, Eq, Structural)]
pub enum SerialBusSubClass {
    /// Fire wire controller.
    FireWire,
    /// Access bus controller.
    AccessBus,
    /// SSA controller.
    SSA,
    /// USB controller.
    USB,
    /// Fibre channel controller.
    FibreChannel,
    /// SM bus controller.
    SMBus,
    /// InfiniBand controller.
    InfiniBand,
    /// IPMI controller.
    IPMI,
    /// Other controller.
    Other,
    /// Unknown controller.
    Unknown(u8),
}

impl SerialBusSubClass {
    /// The subclass that the raw code `val` stands for.
    pub open spec fn spec_from_u8(val: u8) -> Self {
        if val == 0x00 {
            Self::FireWire
        } else if val == 0x01 {
            Self::AccessBus
        } else if val == 0x02 {
            Self::SSA
        } else if val == 0x03 {
            Self::USB
        } else if val == 0x04 {
            Self::FibreChannel
        } else if val == 0x05 {
            Self::SMBus
        } else if val == 0x06 {
            Self::InfiniBand
        } else if val == 0x07 {
            Self::IPMI
        } else if val == 0x80 {
            Self::Other
        } else {
            Self::Unknown(val)
        }
    }

    /// The raw code of a subclass.
    pub open spec fn spec_to_u8(self) -> u8 {
        match self {
            Self::FireWire => 0x00,
            Self::AccessBus => 0x01,
            Self::SSA => 0x02,
            Self::USB => 0x03,
            Self::FibreChannel => 0x04,
            Self::SMBus => 0x05,
            Self::InfiniBand => 0x06,
            Self::IPMI => 0x07,
            Self::Other => 0x80,
            Self::Unknown(val) => val,
        }
    }

    /// Reads a subclass from its raw code.
    pub fn from_u8(val: u8) -> (subclass: Self)
        ensures
            subclass == Self::spec_from_u8(val),
    {
        match val {
            0x00 => Self::FireWire,
            0x01 => Self::AccessBus,
            0x02 => Self::SSA,
            0x03 => Self::USB,
            0x04 => Self::FibreChannel,
            0x05 => Self::SMBus,
            0x06 => Self::InfiniBand,
            0x07 => Self::IPMI,
            0x80 => Self::Other,
            other => Self::Unknown(other),
        }
    }

    /// The raw code of a subclass.
    pub fn to_u8(&self) -> (val: u8)
        ensures
            val == self.spec_to_u8(),
    {
        match *self {
            Self::FireWire => 0x00,
            Self::AccessBus => 0x01,
            Self::SSA => 0x02,
            Self::USB => 0x03,
            Self::FibreChannel => 0x04,
            Self::SMBus => 0x05,
            Self::InfiniBand => 0x06,
            Self::IPMI => 0x07,
            Self::Other => 0x80,
            Self::Unknown(val) => val,
        }
    }
}

/// Reading a code and writing it back gives the code read.
pub proof fn lemma_serial_bus_sub_class_round_trip(val: u8)
    ensures
        SerialBusSubClass::spec_from_u8(val).spec_to_u8() == val,
{
}

/// PCI Subclasses for Wireless Controller (BaseClass 0x0D)
#[derive(Debug, Clone, Copy, PartialEq, Eq, Structural)]
pub enum WirelessSubClass {
    /// IrDA controller.
    IrDA,
    /// Consumer IR controller.
    ConsumerIR,
    /// RF controller.
    RF,
    /// Bluetooth controller.
    Bluetooth,
    /// Other controller.
    Other,
    /// Unknown controller.
    Unknown(u8),
}

impl WirelessSubClass {
    /// The subclass that the raw code `val` stands for.
    pub open spec fn spec_from_u8(val: u8) -> Self {
        if val == 0x00 {
            Self::IrDA
        } else if val == 0x01 {
            Self::ConsumerIR
        } else if val == 0x10 {
            Self::RF
        } else if val == 0x11 {
            Self::Bluetooth
        } else if val == 0x80 {
            Self::Other
        } else {
            Self::Unknown(val)
        }
    }

    /// The raw code of a subclass.
    pub open spec fn spec_to_u8(self) -> u8 {
        match self {
            Self::IrDA => 0x00,
            Self::ConsumerIR => 0x01,
            Self::RF => 0x10,
            Self::Bluetooth => 0x11,
            Self::Other => 0x80,
            Self::Unknown(val) => val,
        }
    }

    /// Reads a subclass from its raw code.
    pub fn from_u8(val: u8) -> (subclass: Self)
        ensures
            subclass == Self::spec_from_u8(val),
    {
        match val {
            0x00 => Self::IrDA,
            0x01 => Self::ConsumerIR,
            0x10 => Self::RF,
            0x11 => Self::Bluetooth,
            0x80 => Self::Other,
            other => Self::Unknown(other),
        }
    }

    /// The raw code of a subclass.
    pub fn to_u8(&self) -> (val: u8)
        ensures
            val == self.spec_to_u8(),
    {
        match *self {
            Self::IrDA => 0x00,
            Self::ConsumerIR => 0x01,
            Self::RF => 0x10,
            Self::Bluetooth => 0x11,
            Self::Other => 0x80,
            Self::Unknown(val) => val,
        }
    }
}

/// Reading a code and writing it back gives the code read.
pub proof fn lemma_wireless_sub_class_round_trip(val: u8)
    ensures
        WirelessSubClass::spec_from_u8(val).spec_to_u8() == val,
{
}

/// PCI Subclasses for Intelligent I/O Controller (BaseClass 0x0E)
#[derive(Debug, Clone, Copy, PartialEq, Eq, Structural)]
pub enum IntelligentIOSubClass {
    /// I20 controller.
    I2O,
    /// Other controller.
    Other,
    /// Unknown controller.
    Unknown(u8),
}

impl IntelligentIOSubClass {
    /// The subclass that the raw code `val` stands for.
    pub open spec fn spec_from_u8(val: u8) -> Self {
        if val == 0x00 {
            Self::I2O
        } else if val == 0x80 {
            Self::Other
        } else {
            Self::Unknown(val)
        }
    }

    /// The raw code of a subclass.
    pub open spec fn spec_to_u8(self) -> u8 {
        match self {
            Self::I2O => 0x00,
            Self::Other => 0x80,
            Self::Unknown(val) => val,
        }
    }

    /// Reads a subclass from its raw code.
    pub fn from_u8(val: u8) -> (subclass: Self)
        ensures
            subclass == Self::spec_from_u8(val),
    {
        match val {
            0x00 => Self::I2O,
            0x80 => Self::Other,
            other => Self::Unknown(other),
        }
    }

    /// The raw code of a subclass.
    pub fn to_u8(&self) -> (val: u8)
        ensures
            val == self.spec_to_u8(),
    {
        match *self {
            Self::I2O => 0x00,
            Self::Other => 0x80,
            Self::Unknown(val) => val,
        }
    }
}

/// Reading a code and writing it back gives the code read.
pub proof fn lemma_intelligent_io_sub_class_round_trip(val: u8)
    ensures
        IntelligentIOSubClass::spec_from_u8(val).spec_to_u8() == val,
{
}

/// PCI Subclasses for Satellite Communication Controller (BaseClass X)
#[derive(Debug, Clone, Copy, PartialEq, Eq, Structural)]
pub enum SatelliteCommunicationSubClass {
    /// Generic controller.
    Generic,
    /// Unknown controller.
    Unknown(u8),
}

impl SatelliteCommunicationSubClass {
    /// The subclass that the raw code `val` stands for.
    pub open spec fn spec_from_u8(val: u8) -> Self {
        if val == 0x00 {
            Self::Generic
        } else {
            Self::Unknown(val)
        }
    }

    /// The raw code of a subclass.
    pub open spec fn spec_to_u8(self) -> u8 {
        match self {
            Self::Generic => 0x00,
            Self::Unknown(val) => val,
        }
    }

    /// Reads a subclass from its raw code.
    pub fn from_u8(val: u8) -> (subclass: Self)
        ensures
            subclass == Self::spec_from_u8(val),
    {
        match val {
            0x00 => Self::Generic,
            other => Self::Unknown(other),
        }
    }

    /// The raw code of a subclass.
    pub fn to_u8(&self) -> (val: u8)
        ensures
            val == self.spec_to_u8(),
    {
        match *self {
            Self::Generic => 0x00,
            Self::Unknown(val) => val,
        }
    }
}

/// Reading a code and writing it back gives the code read.
pub proof fn lemma_satellite_communication_sub_class_round_trip(val: u8)
    ensures
        SatelliteCommunicationSubClass::spec_from_u8(val).spec_to_u8() == val,
{
}

/// PCI Subclasses for Encryption/Decryption Controller (BaseClass X)
#[derive(Debug, Clone, Copy, PartialEq, Eq, Structural)]
pub enum EncryptionSubClass {
    /// Generic controller.
    Generic,
    /// Unknown controller.
    Unknown(u8),
}

impl EncryptionSubClass {
    /// The subclass that the raw code `val` stands for.
    pub open spec fn spec_from_u8(val: u8) -> Self {
        if val == 0x00 {
            Self::Generic
        } else {
            Self::Unknown(val)
        }
    }

    /// The raw code of a subclass.
    pub open spec fn spec_to_u8(self) -> u8 {
        match self {
            Self::Generic => 0x00,
            Self::Unknown(val) => val,
        }
    }

    /// Reads a subclass from its raw code.
    pub fn from_u8(val: u8) -> (subclass: Self)
        ensures
            subclass == Self::spec_from_u8(val),
    {
        match val {
            0x00 => Self::Generic,
            other => Self::Unknown(other),
        }
    }

    /// The raw code of a subclass.
    pub fn to_u8(&self) -> (val: u8)
        ensures
            val == self.spec_to_u8(),
    {
        match *self {
            Self::Generic => 0x00,
            Self::Unknown(val) => val,
        }
    }
}

/// Reading a code and writing it back gives the code read.
pub proof fn lemma_encryption_sub_class_round_trip(val: u8)
    ensures
        EncryptionSubClass::spec_from_u8(val).spec_to_u8() == val,
{
}

/// PCI Subclasses for Signal Processing Controller (BaseClass X)
#[derive(Debug, Clone, Copy, PartialEq, Eq, Structural)]
pub enum SignalProcessingSubClass {
    /// Generic controller.
    Generic,
    /// Unknown controller.
    Unknown(u8),
}

impl SignalProcessingSubClass {
    /// The subclass that the raw code `val` stands for.
    pub open spec fn spec_from_u8(val: u8) -> Self {
        if val == 0x00 {
            Self::Generic
        } else {
            Self::Unknown(val)
        }
    }

    /// The raw code of a subclass.
    pub open spec fn spec_to_u8(self) -> u8 {
        match self {
            Self::Generic => 0x00,
            Self::Unknown(val) => val,
        }
    }

    /// Reads a subclass from its raw code.
    pub fn from_u8(val: u8) -> (subclass: Self)
        ensures
            subclass == Self::spec_from_u8(val),
    {
        match val {
            0x00 => Self::Generic,
            other => Self::Unknown(other),
        }
    }

    /// The raw code of a subclass.
    pub fn to_u8(&self) -> (val: u8)
        ensures
            val == self.spec_to_u8(),
    {
        match *self {
            Self::Generic => 0x00,
            Self::Unknown(val) => val,
        }
    }
}

/// Reading a code and writing it back gives the code read.
pub proof fn lemma_signal_processing_sub_class_round_trip(val: u8)
    ensures
        SignalProcessingSubClass::spec_from_u8(val).spec_to_u8() == val,
{
}

/// PCI Subclasses for Processing Accelerator (BaseClass X)
#[derive(Debug, Clone, Copy, PartialEq, Eq, Structural)]
pub enum ProcessingAcceleratorSubClass {
    /// Generic accelerator.
    Generic,
    /// Unknown accelerator.
    Unknown(u8),
}

impl ProcessingAcceleratorSubClass {
    /// The subclass that the raw code `val` stands for.
    pub open spec fn spec_from_u8(val: u8) -> Self {
        if val == 0x00 {
            Self::Generic
        } else {
            Self::Unknown(val)
        }
    }

    /// The raw code of a subclass.
    pub open spec fn spec_to_u8(self) -> u8 {
        match self {
            Self::Generic => 0x00,
            Self::Unknown(val) => val,
        }
    }

    /// Reads a subclass from its raw code.
    pub fn from_u8(val: u8) -> (subclass: Self)
        ensures
            subclass == Self::spec_from_u8(val),
    {
        match val {
            0x00 => Self::Generic,
            other => Self::Unknown(other),
        }
    }

    /// The raw code of a subclass.
    pub fn to_u8(&self) -> (val: u8)
        ensures
            val == self.spec_to_u8(),
    {
        match *self {
            Self::Generic => 0x00,
            Self::Unknown(val) => val,
        }
    }
}

/// Reading a code and writing it back gives the code read.
pub proof fn lemma_processing_accelerator_sub_class_round_trip(val: u8)
    ensures
        ProcessingAcceleratorSubClass::spec_from_u8(val).spec_to_u8() == val,
{
}

/// PCI Subclasses for Non-Essential Instrumentation (BaseClass X)
#[derive(Debug, Clone, Copy, PartialEq, Eq, Structural)]
pub enum NonEssentialInstrumentationSubClass {
    /// Generic instrumentation.
    Generic,
    /// Unknown instrumentation.
    Unknown(u8),
}

impl NonEssentialInstrumentationSubClass {
    /// The subclass that the raw code `val` stands for.
    pub open spec fn spec_from_u8(val: u8) -> Self {
        if val == 0x00 {
            Self::Generic
        } else {
            Self::Unknown(val)
        }
    }

    /// The raw code of a subclass.
    pub open spec fn spec_to_u8(self) -> u8 {
        match self {
            Self::Generic => 0x00,
            Self::Unknown(val) => val,
        }
    }

    /// Reads a subclass from its raw code.
    pub fn from_u8(val: u8) -> (subclass: Self)
        ensures
            subclass == Self::spec_from_u8(val),
    {
        match val {
            0x00 => Self::Generic,
            other => Self::Unknown(other),
        }
    }

    /// The raw code of a subclass.
    pub fn to_u8(&self) -> (val: u8)
        ensures
            val == self.spec_to_u8(),
    {
        match *self {
            Self::Generic => 0x00,
            Self::Unknown(val) => val,
        }
    }
}

/// Reading a code and writing it back gives the code read.
pub proof fn lemma_non_essential_instrumentation_sub_class_round_trip(val: u8)
    ensures
        NonEssentialInstrumentationSubClass::spec_from_u8(val).spec_to_u8() == val,
{
}

} // verus!
