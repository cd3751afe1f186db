//! The capabilities of a PCI device, decoded from the words of its
//! configuration space.

use vstd::prelude::*;

verus! {

/// PCI Power Management Capability
#[derive(Debug, Clone, Copy, PartialEq, Eq, Structural)]
pub struct PowerManagementCap {
    /// Power management version (0..3)
    pub version: u8,
    /// PME (Power Management Event) support
    pub pme_support: bool,
    /// Device is currently in D1/D2/D3 state
    pub current_state: u8,
}

impl PowerManagementCap {
    /// What the first word of the capability holds: the version in bits 0
    /// to 2, the power state in bits 11 and 12, PME support in bit 15.
    pub open spec fn of_word(word: u32) -> Self {
        PowerManagementCap {
            version: (word % 8) as u8,
            pme_support: (word / 0x8000) % 2 == 1,
            current_state: ((word / 0x800) % 4) as u8,
        }
    }

    /// Decodes the first word of the capability.
    pub fn from_word(word: u32) -> (cap: Self)
        ensures
            cap == Self::of_word(word),
    {
        assert(word & 0x07 == word % 8) by (bit_vector);
        assert(((word & 0x8000) != 0) == ((word / 0x8000) % 2 == 1)) by (bit_vector);
        assert((word >> 11) & 0x03 == (word / 0x800) % 4) by (bit_vector);
        Self {
            version: (word & 0x07) as u8,
            pme_support: (word & 0x8000) != 0,
            current_state: ((word >> 11) & 0x03) as u8,
        }
    }
}

/// PCI Message Signaled Interrupts Capability
#[derive(Debug, Clone, Copy, PartialEq, Eq, Structural)]
pub struct MsiCap {
    /// True if 64-bit capable
    pub is_64bit: bool,
    /// Number of vectors supported (2^n)
    pub multiple_message_cap: u8,
}

impl MsiCap {
    /// What the first word of the capability holds: the vector count in
    /// bits 1 to 3, the 64-bit flag in bit 7.
    pub open spec fn of_word(word: u32) -> Self {
        MsiCap { is_64bit: (word / 0x80) % 2 == 1, multiple_message_cap: ((word / 2) % 8) as u8 }
    }

    /// Decodes the first word of the capability.
    pub fn from_word(word: u32) -> (cap: Self)
        ensures
            cap == Self::of_word(word),
    {
        assert(((word & 0x80) != 0) == ((word / 0x80) % 2 == 1)) by (bit_vector);
        assert((word >> 1) & 0x07 == (word / 2) % 8) by (bit_vector);
        Self { is_64bit: (word & 0x80) != 0, multiple_message_cap: ((word >> 1) & 0x07) as u8 }
    }
}

/// PCI MSI-X Capability
#[derive(Debug, Clone, Copy, PartialEq, Eq, Structural)]
pub struct MsixCap {
    /// Number of MSI-X vectors
    pub table_size: u16,
    /// Table BAR index
    pub table_bir: u8,
    /// Table offset within BAR
    pub table_offset: u32,
}

impl MsixCap {
    /// What the first two words of the capability hold: one less than the
    /// table size in bits 0 to 10 of the first; in the second the BAR index
    /// in bits 0 to 2 and the table offset in the bits above them.
    pub open spec fn of_words(word0: u32, word1: u32) -> Self {
        MsixCap {
            table_size: (word0 % 0x800 + 1) as u16,
            table_bir: (word1 % 8) as u8,
            table_offset: (word1 - word1 % 8) as u32,
        }
    }

    /// Decodes the first two words of the capability.
    pub fn from_words(word0: u32, word1: u32) -> (cap: Self)
        ensures
            cap == Self::of_words(word0, word1),
    {
        assert(word0 & 0x7FF == word0 % 0x800) by (bit_vector);
        assert(word1 & 0x07 == word1 % 8) by (bit_vector);
        assert(word1 & 0xFFFF_FFF8 == word1 - word1 % 8) by (bit_vector);
        Self {
            table_size: ((word0 & 0x7FF) + 1) as u16,
            table_bir: (word1 & 0x07) as u8,
            table_offset: word1 & 0xFFFF_FFF8,
        }
    }
}

/// PCI Express Capability
#[derive(Debug, Clone, Copy, PartialEq, Eq, Structural)]
pub struct PcieCap {
    /// The PCIe version.
    pub version: u8,
    /// The PCIe device type.
    pub device_type: u8,
    /// If the PCIe device slot is implemented.
    pub slot_implemented: bool,
}

impl PcieCap {
    /// What the capabilities register holds: the version in bits 0 to 3,
    /// the device type in bits 4 to 8, the slot flag in bit 8.
    pub open spec fn of_word(reg: u32) -> Self {
        PcieCap {
            version: (reg % 16) as u8,
            device_type: ((reg / 16) % 32) as u8,
            slot_implemented: (reg / 0x100) % 2 == 1,
        }
    }

    /// Decodes the capabilities register.
    pub fn from_word(reg: u32) -> (cap: Self)
        ensures
            cap == Self::of_word(reg),
    {
        assert(reg & 0xF == reg % 16) by (bit_vector);
        assert((reg >> 4) & 0x1F == (reg / 16) % 32) by (bit_vector);
        assert(((reg & (1u32 << 8)) != 0) == ((reg / 0x100) % 2 == 1)) by (bit_vector);
        Self {
            version: (reg & 0xF) as u8,
            device_type: ((reg >> 4) & 0x1F) as u8,
            slot_implemented: (reg & (1u32 << 8)) != 0,
        }
    }
}

/// PCIe Advanced Error Reporting
#[derive(Debug, Clone, Copy, PartialEq, Eq, Structural)]
pub struct AerCap {
    /// Correctable Error Status
    pub ce_status: u32,
    /// Uncorrectable Error Status
    pub ue_status: u32,
}

/// Vendor-specific PCI capability
#[derive(Debug, Clone, Copy, PartialEq, Eq, Structural)]
pub struct VendorCap {
    /// Offset of this capability in config space
    pub offset: u16,
    /// Capability ID
    pub id: u16,
}

/// The fields of the header of a capability in the legacy list.
#[derive(Debug, Clone, Copy, PartialEq, Eq, Structural)]
pub struct CapHeader {
    /// What kind of capability this is.
    pub id: u16,
    /// Offset of the next capability, 0 at the end of the list.
    pub next: u16,
}

impl CapHeader {
    /// What the header of a legacy capability holds: the id in the low
    /// byte, the offset of the next one in the byte above it.
    pub open spec fn of_legacy(header: u32) -> Self {
        CapHeader { id: (header % 0x100) as u16, next: ((header / 0x100) % 0x100) as u16 }
    }

    /// What the header of an extended capability holds: the id in the low
    /// 16 bits, the offset of the next one in the top 12.
    pub open spec fn of_extended(header: u32) -> Self {
        CapHeader { id: (header % 0x1_0000) as u16, next: (header / 0x10_0000) as u16 }
    }

    /// Decodes the header of a legacy capability.
    pub fn legacy(header: u32) -> (fields: Self)
        ensures
            fields == Self::of_legacy(header),
    {
        assert(header & 0xFF == header % 0x100) by (bit_vector);
        assert((header >> 8) & 0xFF == (header / 0x100) % 0x100) by (bit_vector);
        Self { id: (header & 0xFF) as u16, next: ((header >> 8) & 0xFF) as u16 }
    }

    /// Decodes the header of an extended capability.
    pub fn extended(header: u32) -> (fields: Self)
        ensures
            fields == Self::of_extended(header),
    {
        assert(header & 0xFFFF == header % 0x1_0000) by (bit_vector);
        assert((header >> 20) & 0xFFF == header / 0x10_0000) by (bit_vector);
        Self { id: (header & 0xFFFF) as u16, next: ((header >> 20) & 0xFFF) as u16 }
    }
}

/// How many vendor-specific capabilities are kept.
pub const MAX_VENDOR_CAPS: usize = 128;

/// How many dwords the configuration space of a function holds.
pub const CONFIG_WORDS: usize = 1024;

/// How many capabilities of the legacy list are followed. A list that runs
/// on for so long never ends: it has come back to a capability it passed
/// and found nothing on the way that fills the vendor list.
pub const LEGACY_STEPS: u32 = 33024;

/// `heapless::Vec`: a list with room for `N` items that lies where its owner
/// lies. Nothing inside it is visible here; `vendor_items` names what the
/// vendor list holds.
#[verifier::external_type_specification]
#[verifier::external_body]
#[verifier::reject_recursive_types(T)]
pub struct ExHeaplessVec<T, const N: usize>(heapless::Vec<T, N>);

/// The capabilities that a bounded vendor list holds, in the order they
/// were pushed.
pub uninterp spec fn vendor_items(list: heapless::Vec<VendorCap, 128>) -> Seq<VendorCap>;

/// `heapless::Vec::new`: a list that holds nothing.
#[verifier::external_body]
fn vendor_new() -> (list: heapless::Vec<VendorCap, 128>)
    ensures
        vendor_items(list) == Seq::<VendorCap>::empty(),
{
    heapless::Vec::new()
}

/// `heapless::Vec::is_full`: whether the list holds as many items as it has
/// room for, which here is 128; a list that is not full holds fewer.
#[verifier::external_body]
fn vendor_is_full(list: &heapless::Vec<VendorCap, 128>) -> (full: bool)
    ensures
        full == (vendor_items(*list).len() == MAX_VENDOR_CAPS),
        !full ==> vendor_items(*list).len() < MAX_VENDOR_CAPS,
{
    list.is_full()
}

/// `heapless::Vec::push`: appends the item and reports `true` where the list
/// holds fewer items than it has room for; else the list stays as it is and
/// the report is `false`.
#[verifier::external_body]
fn vendor_push(list: &mut heapless::Vec<VendorCap, 128>, cap: VendorCap) -> (pushed: bool)
    ensures
        pushed == (vendor_items(*old(list)).len() < MAX_VENDOR_CAPS),
        vendor_items(*final(list)) == if pushed {
            vendor_items(*old(list)).push(cap)
        } else {
            vendor_items(*old(list))
        },
{
    list.push(cap).is_ok()
}

/// `heapless::Vec::as_slice`: the items of the list, in order.
#[verifier::external_body]
fn vendor_to_vec(list: &heapless::Vec<VendorCap, 128>) -> (items: Vec<VendorCap>)
    ensures
        items@ == vendor_items(*list),
{
    list.as_slice().to_vec()
}

/// The register of the configuration space that `offset` names: the dword
/// that holds the byte at `offset`, counted within the 4096 bytes.
pub open spec fn word_at(config: Seq<u32>, offset: int) -> u32 {
    config[(offset % 4096) / 4]
}

/// The capabilities found so far, as plain values.
pub struct CapsView {
    /// PCI Power Management Capability
    pub pmc: Option<PowerManagementCap>,
    /// Message Signaled Interrupts Capability (legacy MSI)
    pub msi: Option<MsiCap>,
    /// MSI-X Capability
    pub msix: Option<MsixCap>,
    /// PCIe Capability
    pub pcie: Option<PcieCap>,
    /// Advanced Error Reporting
    pub aer: Option<AerCap>,
    /// Vendor-specific capabilities (raw)
    pub vendor: Seq<VendorCap>,
    /// Whether a vendor capability was found for which no room was left.
    pub overflowed: bool,
}

/// No capability was found yet.
pub open spec fn no_caps() -> CapsView {
    CapsView {
        pmc: None,
        msi: None,
        msix: None,
        pcie: None,
        aer: None,
        vendor: Seq::empty(),
        overflowed: false,
    }
}

/// Takes note of the legacy capability with the id `id` at `offset`: power
/// management (1), MSI (5) and MSI-X (0x11) are decoded, anything else is
/// listed as a vendor capability.
pub open spec fn with_legacy(config: Seq<u32>, offset: u8, id: u16, caps: CapsView) -> CapsView {
    if id == 0x01 {
        CapsView { pmc: Some(PowerManagementCap::of_word(word_at(config, offset as int))), ..caps }
    } else if id == 0x05 {
        CapsView { msi: Some(MsiCap::of_word(word_at(config, offset as int))), ..caps }
    } else if id == 0x11 {
        CapsView {
            msix: Some(
                MsixCap::of_words(word_at(config, offset as int), word_at(config, offset + 4)),
            ),
            ..caps
        }
    } else {
        CapsView { vendor: caps.vendor.push(VendorCap { offset: offset as u16, id }), ..caps }
    }
}

/// Follows the legacy list from `offset` for at most `steps` capabilities:
/// it ends at offset 0, or when the vendor list is full.
pub open spec fn legacy_walk(config: Seq<u32>, offset: u8, caps: CapsView, steps: nat) -> CapsView
    decreases steps,
{
    if offset == 0 || caps.vendor.len() >= 128 || steps == 0 {
        caps
    } else {
        let header = CapHeader::of_legacy(word_at(config, offset as int));
        let found = with_legacy(config, offset, header.id, caps);
        if header.next == 0 {
            found
        } else {
            legacy_walk(config, header.next as u8, found, (steps - 1) as nat)
        }
    }
}

/// Takes note of the extended capability with the id `id` at `offset`: PCI
/// Express (1) and error reporting (7) are decoded; anything else is listed
/// as a vendor capability under the low byte of its id, or noted as
/// overflow where the list is full.
pub open spec fn with_extended(config: Seq<u32>, offset: u16, id: u16, caps: CapsView) -> CapsView {
    if id == 0x0001 {
        CapsView { pcie: Some(PcieCap::of_word(word_at(config, offset + 4))), ..caps }
    } else if id == 0x0007 {
        CapsView {
            aer: Some(
                AerCap {
                    ce_status: word_at(config, offset + 4),
                    ue_status: word_at(config, offset + 8),
                },
            ),
            ..caps
        }
    } else if caps.vendor.len() < 128 {
        CapsView {
            vendor: caps.vendor.push(VendorCap { offset, id: (id % 0x100) as u16 }),
            ..caps
        }
    } else {
        CapsView { overflowed: true, ..caps }
    }
}

/// Follows the extended list from `offset`: it ends at a header of zero, at
/// a next offset of zero, or at one that does not lead on upwards.
pub open spec fn extended_walk(config: Seq<u32>, offset: u16, caps: CapsView) -> CapsView
    decreases 0x1000 - offset,
{
    if offset >= 0x1000 || word_at(config, offset as int) == 0 {
        caps
    } else {
        let header = CapHeader::of_extended(word_at(config, offset as int));
        let found = with_extended(config, offset, header.id, caps);
        if header.next == 0 || header.next <= offset {
            found
        } else {
            extended_walk(config, header.next, found)
        }
    }
}

/// The capabilities of a function whose configuration space holds `config`:
/// the legacy list from the pointer in the low byte of register 0x34, then
/// the extended list from offset 0x100.
pub open spec fn capabilities_of(config: Seq<u32>) -> CapsView {
    extended_walk(
        config,
        0x100,
        legacy_walk(config, (word_at(config, 0x34) % 0x100) as u8, no_caps(), LEGACY_STEPS as nat),
    )
}

/// Reads the register that `offset` names.
fn read(config: &Vec<u32>, offset: u16) -> (word: u32)
    requires
        config@.len() == CONFIG_WORDS,
    ensures
        word == word_at(config@, offset as int),
{
    assert(offset & 0xFFC == (offset % 4096) / 4 * 4) by (bit_vector);
    config[((offset & 0xFFC) / 4) as usize]
}

/// A strongly typed representation of the PCI/PCIe capabilities of a device.
///
/// This struct aggregates the main capabilities a driver would care about.
pub struct PciCapabilities {
    /// PCI Power Management Capability
    pub pmc: Option<PowerManagementCap>,
    /// Message Signaled Interrupts Capability (legacy MSI)
    pub msi: Option<MsiCap>,
    /// MSI-X Capability
    pub msix: Option<MsixCap>,
    /// PCIe Capability
    pub pcie: Option<PcieCap>,
    /// Advanced Error Reporting
    pub aer: Option<AerCap>,
    /// Vendor-specific capabilities (raw)
    pub vendor: heapless::Vec<VendorCap, 128>,
    /// If the vendor capability-finding loop overflowed [MAX_VENDOR_CAPS].
    pub overflowed: bool,
}

impl View for PciCapabilities {
    type V = CapsView;

    open spec fn view(&self) -> CapsView {
        CapsView {
            pmc: self.pmc,
            msi: self.msi,
            msix: self.msix,
            pcie: self.pcie,
            aer: self.aer,
            vendor: vendor_items(self.vendor),
            overflowed: self.overflowed,
        }
    }
}

impl PciCapabilities {
    /// Enumerate the capabilities of a function from the 1024 dwords of its
    /// configuration space.
    pub fn new(config: &Vec<u32>) -> (caps: Self)
        requires
            config@.len() == CONFIG_WORDS,
        ensures
            caps@ == capabilities_of(config@),
    {
        let mut caps = PciCapabilities {
            pmc: None,
            msi: None,
            msix: None,
            pcie: None,
            aer: None,
            vendor: vendor_new(),
            overflowed: false,
        };
        let pointer = read(config, 0x34);
        assert(pointer & 0xFF == pointer % 0x100) by (bit_vector);
        let mut offset: u8 = (pointer & 0xFF) as u8;
        let mut steps: u32 = LEGACY_STEPS;
        while offset != 0 && !vendor_is_full(&caps.vendor) && steps > 0
            invariant
                config@.len() == 1024,
                vendor_items(caps.vendor).len() <= 128,
                !caps.overflowed,
                caps.pcie.is_none(),
                caps.aer.is_none(),
                legacy_walk(config@, offset, caps@, steps as nat) == legacy_walk(
                    config@,
                    (word_at(config@, 0x34) % 0x100) as u8,
                    no_caps(),
                    LEGACY_STEPS as nat,
                ),
            decreases steps,
        {
            let header = CapHeader::legacy(read(config, offset as u16));
            if header.id == 0x01 {
                caps.pmc = Some(PowerManagementCap::from_word(read(config, offset as u16)));
            } else if header.id == 0x05 {
                caps.msi = Some(MsiCap::from_word(read(config, offset as u16)));
            } else if header.id == 0x11 {
                let word0 = read(config, offset as u16);
                let word1 = read(config, offset as u16 + 4);
                caps.msix = Some(MsixCap::from_words(word0, word1));
            } else {
                vendor_push(&mut caps.vendor, VendorCap { offset: offset as u16, id: header.id });
            }
            if header.next == 0 {
                steps = 0;
                offset = 0;
            } else {
                offset = header.next as u8;
                steps -= 1;
            }
        }
        let ghost after_legacy = caps@;
        let mut offset: u16 = 0x100;
        let mut done = false;
        while !done
            invariant
                config@.len() == 1024,
                offset < 0x1000,
                done ==> caps@ == extended_walk(config@, 0x100, after_legacy),
                !done ==> extended_walk(config@, offset, caps@) == extended_walk(
                    config@,
                    0x100,
                    after_legacy,
                ),
            decreases 0x1000 - offset + if done { 0int } else { 1int },
        {
            let word = read(config, offset);
            if word == 0 {
                done = true;
            } else {
                let header = CapHeader::extended(word);
                if header.id == 0x0001 {
                    caps.pcie = Some(PcieCap::from_word(read(config, offset + 4)));
                } else if header.id == 0x0007 {
                    caps.aer = Some(
                        AerCap {
                            ce_status: read(config, offset + 4),
                            ue_status: read(config, offset + 8),
                        },
                    );
                } else {
                    let id = header.id;
                    assert(id & 0xFF == id % 0x100) by (bit_vector);
                    let listed = vendor_push(
                        &mut caps.vendor,
                        VendorCap { offset, id: header.id & 0xFF },
                    );
                    if !listed {
                        caps.overflowed = true;
                    }
                }
                if header.next == 0 || header.next <= offset {
                    done = true;
                } else {
                    offset = header.next;
                }
            }
        }
        caps
    }

    /// The vendor-specific capabilities, in the order they were found.
    pub fn vendor_caps(&self) -> (items: Vec<VendorCap>)
        ensures
            items@ == self@.vendor,
    {
        vendor_to_vec(&self.vendor)
    }
}

} // verus!
