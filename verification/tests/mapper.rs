use kernel_core::memory::frame_alloc::{MemoryRegion, PageFrameAllocator};
use kernel_core::memory::mapper::{AddressSpace, PRESENT, WRITABLE};
use kernel_core::memory::MemoryError;

const OFFSET: u64 = 0xffff_8000_0000_0000;

fn frames_with(count: u64) -> PageFrameAllocator {
    let mut frames = PageFrameAllocator::new();
    frames.init(&vec![MemoryRegion { base: 0x100_0000, length: count * 4096, usable: true }]);
    frames
}

#[test]
fn nothing_resolves_in_a_new_address_space() {
    let space = AddressSpace::new(0x1000, OFFSET);
    assert_eq!(space.phys_mem_offset(), OFFSET);
    assert_eq!(space.root_frame(), 0x1000);
    assert_eq!(space.translate_addr(0), None);
    assert_eq!(space.translate_addr(OFFSET + 0x5000), None);
    assert_eq!(space.translate_phys_addr(0x5000), None);
}

#[test]
fn map_address_returns_the_direct_map_alias() {
    let mut space = AddressSpace::new(0x1000, OFFSET);
    let mut frames = frames_with(8);
    let virt = space.map_address(&mut frames, 0xfee0_0123, PRESENT | WRITABLE);
    assert_eq!(virt, Ok(OFFSET + 0xfee0_0123));
    assert_eq!(space.translate_addr(OFFSET + 0xfee0_0123), Some(0xfee0_0123));
    assert_eq!(space.translate_addr(OFFSET + 0xfee0_0000), Some(0xfee0_0000));
    assert_eq!(space.translate_addr(OFFSET + 0xfee0_0fff), Some(0xfee0_0fff));
    assert_eq!(space.translate_addr(OFFSET + 0xfee0_1000), None);
    assert_eq!(space.translate_phys_addr(0xfee0_0123), Some(OFFSET + 0xfee0_0123));
    assert_eq!(space.translate_phys_addr(0xfee0_1000), None);
}

#[test]
fn first_mapping_takes_a_frame_for_each_missing_table_level() {
    let mut space = AddressSpace::new(0x1000, OFFSET);
    let mut frames = frames_with(8);
    assert!(space.map_address(&mut frames, 0x20_0000, PRESENT).is_ok());
    assert_eq!(frames.free_count(), 5);
    assert!(space.map_address(&mut frames, 0x20_1000, PRESENT).is_ok());
    assert_eq!(frames.free_count(), 5);
    assert!(space.map_address(&mut frames, 0x40_0000, PRESENT).is_ok());
    assert_eq!(frames.free_count(), 4);
    assert!(space.map_address(&mut frames, 0x4000_0000, PRESENT).is_ok());
    assert_eq!(frames.free_count(), 2);
}

#[test]
fn mapping_a_mapped_page_again_fails() {
    let mut space = AddressSpace::new(0x1000, OFFSET);
    let mut frames = frames_with(8);
    assert!(space.map_address(&mut frames, 0x20_0000, PRESENT).is_ok());
    let before = frames.free_count();
    assert_eq!(
        space.map_address(&mut frames, 0x20_0800, PRESENT),
        Err(MemoryError::MappingFailed)
    );
    assert_eq!(frames.free_count(), before);
    assert_eq!(space.translate_addr(OFFSET + 0x20_0800), Some(0x20_0800));
}

#[test]
fn mapping_fails_without_frames_for_the_table_levels() {
    let mut space = AddressSpace::new(0x1000, OFFSET);
    let mut frames = frames_with(2);
    assert_eq!(
        space.map_address(&mut frames, 0x20_0000, PRESENT),
        Err(MemoryError::MappingFailed)
    );
    assert_eq!(frames.free_count(), 0);
    assert_eq!(space.translate_addr(OFFSET + 0x20_0000), None);
    let mut more = frames_with(1);
    assert_eq!(space.map_address(&mut more, 0x20_0000, PRESENT), Ok(OFFSET + 0x20_0000));
    assert_eq!(more.free_count(), 0);
    assert_eq!(space.translate_addr(OFFSET + 0x20_0000), Some(0x20_0000));
}

#[test]
fn map_if_not_present_twice_takes_frames_once() {
    let mut space = AddressSpace::new(0x1000, OFFSET);
    let mut frames = frames_with(8);
    let first = space.map_address_if_not_present(&mut frames, 0xfec0_0010, PRESENT | WRITABLE);
    let after_first = frames.free_count();
    let second = space.map_address_if_not_present(&mut frames, 0xfec0_0010, PRESENT | WRITABLE);
    assert_eq!(first, Ok(OFFSET + 0xfec0_0010));
    assert_eq!(second, first);
    assert_eq!(after_first, 5);
    assert_eq!(frames.free_count(), after_first);
}

#[test]
fn map_if_not_present_that_fails_fails_again_the_same_way() {
    let mut space = AddressSpace::new(0x1000, OFFSET);
    let mut frames = frames_with(1);
    let first = space.map_address_if_not_present(&mut frames, 0xfec0_0000, PRESENT);
    let second = space.map_address_if_not_present(&mut frames, 0xfec0_0000, PRESENT);
    assert_eq!(first, Err(MemoryError::MappingFailed));
    assert_eq!(second, first);
    assert_eq!(frames.free_count(), 0);
}

#[test]
fn map_range_covers_every_page_it_touches() {
    let mut space = AddressSpace::new(0x1000, OFFSET);
    let mut frames = frames_with(8);
    let virt = space.map_address_range(&mut frames, 0xe000_0ff0, 0x2020, PRESENT | WRITABLE);
    assert_eq!(virt, Ok(OFFSET + 0xe000_0000));
    assert_eq!(frames.free_count(), 5);
    assert_eq!(space.translate_addr(OFFSET + 0xdfff_ffff), None);
    assert_eq!(space.translate_addr(OFFSET + 0xe000_0000), Some(0xe000_0000));
    assert_eq!(space.translate_addr(OFFSET + 0xe000_1abc), Some(0xe000_1abc));
    assert_eq!(space.translate_addr(OFFSET + 0xe000_2000), Some(0xe000_2000));
    assert_eq!(space.translate_addr(OFFSET + 0xe000_300f), Some(0xe000_300f));
    assert_eq!(space.translate_addr(OFFSET + 0xe000_4000), None);
}

#[test]
fn map_range_skips_pages_that_are_mapped() {
    let mut space = AddressSpace::new(0x1000, OFFSET);
    let mut frames = frames_with(8);
    assert!(space.map_address(&mut frames, 0xe000_1000, PRESENT).is_ok());
    assert_eq!(
        space.map_address_range(&mut frames, 0xe000_0000, 0x3000, PRESENT),
        Ok(OFFSET + 0xe000_0000)
    );
    assert_eq!(frames.free_count(), 5);
    assert_eq!(space.translate_addr(OFFSET + 0xe000_2fff), Some(0xe000_2fff));
}

#[test]
fn map_range_of_no_bytes_at_a_frame_base_maps_nothing() {
    let mut space = AddressSpace::new(0x1000, OFFSET);
    let mut frames = frames_with(8);
    assert_eq!(
        space.map_address_range(&mut frames, 0xe000_0000, 0, PRESENT),
        Ok(OFFSET + 0xe000_0000)
    );
    assert_eq!(frames.free_count(), 8);
    assert_eq!(space.translate_addr(OFFSET + 0xe000_0000), None);
}

#[test]
fn map_range_stops_at_the_first_failure() {
    let mut space = AddressSpace::new(0x1000, OFFSET);
    let mut frames = frames_with(3);
    // The range crosses into a second lowest-level table, for which no frame is left.
    assert_eq!(
        space.map_address_range(&mut frames, 0x3f_f000, 0x2000, PRESENT),
        Err(MemoryError::MappingFailed)
    );
    assert_eq!(frames.free_count(), 0);
    assert_eq!(space.translate_addr(OFFSET + 0x3f_f000), Some(0x3f_f000));
    assert_eq!(space.translate_addr(OFFSET + 0x40_0000), None);
}

#[test]
fn alias_without_a_place_in_the_address_space_does_not_resolve() {
    let space = AddressSpace::new(0x1000, OFFSET);
    assert_eq!(space.translate_phys_addr(u64::MAX), None);
    assert_eq!(space.translate_phys_addr_unsafe(0x1000), OFFSET + 0x1000);
}

#[test]
fn map_to_maps_a_page_to_any_frame() {
    let mut space = AddressSpace::new(0x1000, OFFSET);
    let mut frames = frames_with(4);
    assert_eq!(space.map_to(0x1234, 0x9000, PRESENT | WRITABLE, &mut frames), Ok(()));
    assert_eq!(frames.free_count(), 1);
    assert_eq!(space.translate_addr(0x1234 * 4096 + 0x10), Some(0x9010));
}

#[test]
fn adopted_mapping_resolves_and_takes_no_frame() {
    let mut space = AddressSpace::new(0x1000, OFFSET);
    let page = (OFFSET + 0x20_0000) / 4096;
    assert!(space.adopt(page, 0x20_0000, PRESENT | WRITABLE, 0x2000, 0x3000, 0x4000));
    assert_eq!(space.translate_addr(OFFSET + 0x20_0abc), Some(0x20_0abc));
    assert_eq!(
        space.mapping(page),
        Some(kernel_core::memory::mapper::Mapping { frame: 0x20_0000, flags: PRESENT | WRITABLE })
    );
    assert_eq!(space.table_frames(page), (Some(0x2000), Some(0x3000), Some(0x4000)));
    assert_eq!(space.table_frames(page + 512), (Some(0x2000), Some(0x3000), None));
    assert_eq!(space.table_frames(0), (None, None, None));
    assert_eq!(space.mapping(page + 1), None);

    // A neighbour under the same tables needs no frame at all.
    let mut frames = frames_with(1);
    assert_eq!(
        space.map_address_if_not_present(&mut frames, 0x20_1000, PRESENT),
        Ok(OFFSET + 0x20_1000)
    );
    assert_eq!(frames.free_count(), 1);
    // The adopted page itself is left alone.
    assert_eq!(
        space.map_address_if_not_present(&mut frames, 0x20_0000, PRESENT),
        Ok(OFFSET + 0x20_0000)
    );
    assert_eq!(space.mapping(page).unwrap().flags, PRESENT | WRITABLE);
}

#[test]
fn adopting_a_mapped_page_changes_nothing() {
    let mut space = AddressSpace::new(0x1000, OFFSET);
    let mut frames = frames_with(4);
    assert_eq!(space.map_to(7, 0x9000, PRESENT, &mut frames), Ok(()));
    let tables = space.table_frames(7);
    assert!(!space.adopt(7, 0xa000, WRITABLE, 0x2000, 0x3000, 0x4000));
    assert_eq!(space.table_frames(7), tables);
    assert_eq!(space.translate_addr(7 * 4096), Some(0x9000));
    // Tables that exist keep their frames when a page under them is adopted.
    assert!(space.adopt(8, 0xa000, WRITABLE, 0x2000, 0x3000, 0x4000));
    assert_eq!(space.table_frames(8), tables);
    assert_eq!(space.translate_addr(8 * 4096 + 1), Some(0xa001));
}

#[test]
fn tables_are_made_from_the_frames_on_top_of_the_list() {
    let mut space = AddressSpace::new(0x1000, OFFSET);
    let mut frames = frames_with(4);
    assert_eq!(space.map_to(7, 0x9000, PRESENT, &mut frames), Ok(()));
    assert_eq!(
        space.table_frames(7),
        (Some(0x100_3000), Some(0x100_2000), Some(0x100_1000))
    );
    assert_eq!(frames.allocate_frame(), Some(0x100_0000));
}

#[test]
fn table_indices_lead_to_their_page() {
    use_page_at(0, 0, 0, 0, 0);
    use_page_at(0, 0, 0, 1, 1);
    use_page_at(0, 0, 1, 0, 512);
    use_page_at(0, 1, 0, 0, 512 * 512);
    use_page_at(1, 0, 0, 0, 512 * 512 * 512);
    use_page_at(255, 511, 511, 511, 0x7_ffff_ffff);
    use_page_at(256, 0, 0, 0, 0xffff_8000_0000_0000 / 4096);
    use_page_at(272, 0, 0, 0, 0xffff_8800_0000_0000 / 4096);
    use_page_at(511, 511, 511, 511, u64::MAX / 4096);
}

fn use_page_at(i4: u64, i3: u64, i2: u64, i1: u64, expected: u64) {
    assert_eq!(kernel_core::memory::mapper::page_at(i4, i3, i2, i1), expected);
}

#[test]
fn every_page_of_a_mapped_range_resolves_to_itself() {
    let mut space = AddressSpace::new(0x1000, OFFSET);
    let mut frames = frames_with(8);
    assert!(space.map_address_range(&mut frames, 0x7fe0_0800, 0x5000, PRESENT).is_ok());
    let mut phys = 0x7fe0_0000u64;
    while phys < 0x7fe0_6000 {
        assert_eq!(space.translate_addr(OFFSET + phys), Some(phys));
        assert_eq!(space.translate_phys_addr(phys + 0x123), Some(OFFSET + phys + 0x123));
        phys += 4096;
    }
    assert_eq!(space.translate_addr(OFFSET + 0x7fe0_6000), None);
}
