use kernel_core::memory::frame_alloc::{MemoryRegion, PageFrameAllocator, END_OF_LIST};
use kernel_core::memory::{align_down, FRAME_SIZE};

fn usable(base: u64, length: u64) -> MemoryRegion {
    MemoryRegion { base, length, usable: true }
}

#[test]
fn new_allocator_is_empty() {
    let mut frames = PageFrameAllocator::new();
    assert_eq!(frames.free_count(), 0);
    assert_eq!(frames.allocate_frame(), None);
    assert_eq!(frames.free_count(), 0);
}

#[test]
fn free_count_is_whole_frames_of_usable_regions() {
    let mut frames = PageFrameAllocator::new();
    let regions = vec![
        usable(0, 65536),
        MemoryRegion { base: 0x10_0000, length: 8192, usable: false },
        usable(0x20_0000, 5000),
    ];
    frames.init(&regions);
    assert_eq!(frames.free_count(), 17);
}

#[test]
fn one_region_yields_usable_bytes_over_frame_size() {
    for length in [0u64, 1, 4095, 4096, 4097, 8191, 8192, 65536, 65537] {
        let mut frames = PageFrameAllocator::new();
        frames.init(&vec![usable(0x4000, length)]);
        assert_eq!(frames.free_count() as u64, length / 4096);
    }
}

#[test]
fn trailing_remainder_is_dropped() {
    let mut frames = PageFrameAllocator::new();
    frames.init(&vec![usable(0x1000, 4096 + 4095)]);
    assert_eq!(frames.free_count(), 1);
    assert_eq!(frames.allocate_frame(), Some(0x1000));
    assert_eq!(frames.allocate_frame(), None);
}

#[test]
fn regions_that_are_not_usable_are_skipped() {
    let mut frames = PageFrameAllocator::new();
    frames.init(&vec![MemoryRegion { base: 0, length: 1 << 20, usable: false }]);
    assert_eq!(frames.free_count(), 0);
    assert_eq!(frames.allocate_frame(), None);
}

#[test]
fn frames_come_back_last_pushed_first() {
    let mut frames = PageFrameAllocator::new();
    frames.init(&vec![usable(0x1000, 0x3000), usable(0x10000, 0x1000)]);
    assert_eq!(frames.free_count(), 4);
    assert_eq!(frames.allocate_frame(), Some(0x10000));
    assert_eq!(frames.allocate_frame(), Some(0x3000));
    assert_eq!(frames.allocate_frame(), Some(0x2000));
    assert_eq!(frames.allocate_frame(), Some(0x1000));
    assert_eq!(frames.allocate_frame(), None);
}

#[test]
fn frame_at_physical_zero_is_handed_out() {
    let mut frames = PageFrameAllocator::new();
    frames.init(&vec![usable(0, 8192)]);
    assert_eq!(frames.allocate_frame(), Some(4096));
    assert_eq!(frames.allocate_frame(), Some(0));
    assert_eq!(frames.allocate_frame(), None);
}

#[test]
fn count_falls_by_one_per_allocation_down_to_zero() {
    let mut frames = PageFrameAllocator::new();
    frames.init(&vec![usable(0, 65536)]);
    let initial = frames.free_count();
    assert_eq!(initial, 16);
    for taken in 1..=initial {
        assert!(frames.allocate_frame().is_some());
        assert_eq!(frames.free_count(), initial - taken);
    }
    assert_eq!(frames.free_count(), 0);
    assert_eq!(frames.allocate_frame(), None);
    assert_eq!(frames.allocate_frame(), None);
    assert_eq!(frames.free_count(), 0);
}

#[test]
fn unaligned_region_yields_the_frames_that_hold_its_steps() {
    let mut frames = PageFrameAllocator::new();
    frames.init(&vec![usable(0x1234, 0x2000)]);
    assert_eq!(frames.free_count(), 2);
    assert_eq!(frames.allocate_frame(), Some(0x2000));
    assert_eq!(frames.allocate_frame(), Some(0x1000));
}

#[test]
fn pushed_frame_is_next_out() {
    let mut frames = PageFrameAllocator::new();
    frames.push_frame(0x7000);
    frames.push_frame(0x9000);
    assert_eq!(frames.free_count(), 2);
    assert_eq!(frames.allocate_frame(), Some(0x9000));
    frames.push_frame(0x5000);
    assert_eq!(frames.allocate_frame(), Some(0x5000));
    assert_eq!(frames.allocate_frame(), Some(0x7000));
    assert_eq!(frames.allocate_frame(), None);
}

#[test]
fn init_adds_to_what_is_already_free() {
    let mut frames = PageFrameAllocator::new();
    frames.push_frame(0x7000);
    frames.init(&vec![usable(0x10000, 0x2000)]);
    assert_eq!(frames.free_count(), 3);
    assert_eq!(frames.allocate_frame(), Some(0x11000));
    assert_eq!(frames.allocate_frame(), Some(0x10000));
    assert_eq!(frames.allocate_frame(), Some(0x7000));
}

#[test]
fn end_of_list_is_no_frame_address() {
    assert_ne!(END_OF_LIST % FRAME_SIZE, 0);
}

#[test]
fn align_down_gives_the_frame_base() {
    assert_eq!(align_down(0), 0);
    assert_eq!(align_down(4095), 0);
    assert_eq!(align_down(4096), 4096);
    assert_eq!(align_down(0x1234_5678), 0x1234_5000);
    assert_eq!(align_down(u64::MAX), u64::MAX - 4095);
}

#[test]
fn regions_are_checked_against_the_address_space() {
    use_check(&[usable(0, 65536)], true);
    use_check(&[usable(u64::MAX - 4096, 4096)], true);
    use_check(&[usable(u64::MAX - 4095, 4096)], false);
    use_check(&[usable(0, 4096), usable(u64::MAX, 1)], false);
    use_check(&[MemoryRegion { base: u64::MAX, length: u64::MAX, usable: false }], true);
    use_check(&[], true);
}

fn use_check(regions: &[MemoryRegion], expected: bool) {
    assert_eq!(kernel_core::memory::frame_alloc::check_regions(&regions.to_vec()), expected);
}
