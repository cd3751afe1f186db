//! The address space: which virtual pages are mapped to which frames, and which
//! table levels exist to hold those mappings.

use vstd::prelude::*;
use std::collections::HashMap;
use crate::memory::{align_down, frame_base, MemoryError};
use crate::memory::frame_alloc::PageFrameAllocator;

verus! {

/// Flag of a mapping that is present.
pub const PRESENT: u64 = 1;

/// Flag of a mapping that may be written through.
pub const WRITABLE: u64 = 2;

/// Flag of a mapping that bypasses the cache.
pub const NO_CACHE: u64 = 0x10;

/// Flag of a mapping from which no code may run.
pub const NO_EXECUTE: u64 = 0x8000_0000_0000_0000;

/// Flags of a window onto device registers or firmware tables: present,
/// writable, uncached, not executable.
pub const DEVICE_FLAGS: u64 = 0x8000_0000_0000_0013;

/// Pages that one lowest-level table covers.
pub const PAGES_PER_LEVEL1: u64 = 512;

/// Pages that one second-level table covers.
pub const PAGES_PER_LEVEL2: u64 = 262144;

/// Pages that one third-level table covers.
pub const PAGES_PER_LEVEL3: u64 = 134217728;

/// What a mapped page points at.
#[derive(Debug, Clone, Copy, PartialEq, Eq, Structural)]
pub struct Mapping {
    /// Base address of the frame behind the page.
    pub frame: u64,
    /// The flags the mapping was installed with.
    pub flags: u64,
}

/// The number of the page that holds the virtual address `addr`.
pub open spec fn page_of(addr: u64) -> u64 {
    addr / 4096
}

/// The contents of an address space.
///
/// A table below the top level is named by the number of its first page
/// divided by the pages it covers; the value is the frame that holds the table.
pub struct SpaceView {
    /// The third-level tables that exist.
    pub level3: Map<u64, u64>,
    /// The second-level tables that exist.
    pub level2: Map<u64, u64>,
    /// The lowest-level tables that exist.
    pub level1: Map<u64, u64>,
    /// The mapped pages, by page number.
    pub pages: Map<u64, Mapping>,
}

/// The address space in which nothing is mapped and no table exists below
/// the top level.
pub open spec fn empty_space() -> SpaceView {
    SpaceView { level3: Map::empty(), level2: Map::empty(), level1: Map::empty(), pages: Map::empty() }
}

/// An address space and a free list after an operation, and how it ended.
pub struct MapOutcome {
    /// The address space afterwards.
    pub space: SpaceView,
    /// The free frames afterwards, oldest first.
    pub frames: Seq<u64>,
    /// Whether the operation went through.
    pub result: Result<(), MemoryError>,
}

/// Looks for the table `key`, and creates it from the top free frame where it
/// is missing. Without a free frame nothing changes and the step fails.
pub open spec fn table_step(tables: Map<u64, u64>, key: u64, frames: Seq<u64>) -> (
    Map<u64, u64>,
    Seq<u64>,
    bool,
) {
    if tables.contains_key(key) {
        (tables, frames, true)
    } else if frames.len() == 0 {
        (tables, frames, false)
    } else {
        (tables.insert(key, frames.last()), frames.drop_last(), true)
    }
}

/// Installs `mapping` for `page`: walks from the top level down, creating each
/// missing table from the free list, then fills the page's slot.
///
/// It fails with `MappingFailed` where a table is missing and no frame is free,
/// or where the slot is taken. Tables created before the failure stay.
pub open spec fn map_page_spec(
    space: SpaceView,
    frames: Seq<u64>,
    page: u64,
    mapping: Mapping,
) -> MapOutcome {
    let (level3, frames3, ok3) = table_step(space.level3, page / PAGES_PER_LEVEL3, frames);
    let (level2, frames2, ok2) = if ok3 {
        table_step(space.level2, page / PAGES_PER_LEVEL2, frames3)
    } else {
        (space.level2, frames3, false)
    };
    let (level1, frames1, ok1) = if ok2 {
        table_step(space.level1, page / PAGES_PER_LEVEL1, frames2)
    } else {
        (space.level1, frames2, false)
    };
    if ok1 && !space.pages.contains_key(page) {
        MapOutcome {
            space: SpaceView { level3, level2, level1, pages: space.pages.insert(page, mapping) },
            frames: frames1,
            result: Ok(()),
        }
    } else {
        MapOutcome {
            space: SpaceView { level3, level2, level1, pages: space.pages },
            frames: frames1,
            result: Err(MemoryError::MappingFailed),
        }
    }
}

/// The table named `key`, kept where it exists and else put in `frame`.
pub open spec fn table_kept_or(tables: Map<u64, u64>, key: u64, frame: u64) -> Map<u64, u64> {
    if tables.contains_key(key) {
        tables
    } else {
        tables.insert(key, frame)
    }
}

/// Takes up a mapping that the active page table held before anything was
/// mapped through this address space, with the frames of the tables above
/// it. No free frame is used. A page that is mapped already stays as it is,
/// and nothing changes.
pub open spec fn adopt_spec(
    space: SpaceView,
    page: u64,
    mapping: Mapping,
    level3: u64,
    level2: u64,
    level1: u64,
) -> SpaceView {
    if space.pages.contains_key(page) {
        space
    } else {
        SpaceView {
            level3: table_kept_or(space.level3, page / PAGES_PER_LEVEL3, level3),
            level2: table_kept_or(space.level2, page / PAGES_PER_LEVEL2, level2),
            level1: table_kept_or(space.level1, page / PAGES_PER_LEVEL1, level1),
            pages: space.pages.insert(page, mapping),
        }
    }
}

/// The frames of the three tables above `page`, from the third level down,
/// each where the table exists.
pub open spec fn table_frames_spec(space: SpaceView, page: u64) -> (
    Option<u64>,
    Option<u64>,
    Option<u64>,
) {
    (
        if space.level3.contains_key(page / PAGES_PER_LEVEL3) {
            Some(space.level3[page / PAGES_PER_LEVEL3])
        } else {
            None
        },
        if space.level2.contains_key(page / PAGES_PER_LEVEL2) {
            Some(space.level2[page / PAGES_PER_LEVEL2])
        } else {
            None
        },
        if space.level1.contains_key(page / PAGES_PER_LEVEL1) {
            Some(space.level1[page / PAGES_PER_LEVEL1])
        } else {
            None
        },
    )
}

/// The number of the page that the four table indices of a walk lead to,
/// from the top level down. The upper half of the top level stands for the
/// addresses whose bits from 48 up are all set.
pub open spec fn page_at_spec(i4: u64, i3: u64, i2: u64, i1: u64) -> u64 {
    let low = ((i4 * 512 + i3) * 512 + i2) * 512 + i1;
    if i4 >= 256 {
        (low + 0xf_fff0_0000_0000) as u64
    } else {
        low as u64
    }
}

/// The physical address that `addr` resolves to, if its page is mapped.
pub open spec fn translate_spec(space: SpaceView, addr: u64) -> Option<u64> {
    if space.pages.contains_key(page_of(addr)) {
        Some((space.pages[page_of(addr)].frame + addr % 4096) as u64)
    } else {
        None
    }
}

/// Maps the page of the direct-map alias of `phys` to the frame of `phys`.
pub open spec fn map_address_spec(
    space: SpaceView,
    frames: Seq<u64>,
    offset: u64,
    phys: u64,
    flags: u64,
) -> MapOutcome {
    map_page_spec(
        space,
        frames,
        page_of((phys + offset) as u64),
        Mapping { frame: frame_base(phys), flags },
    )
}

/// As `map_address_spec`, but a page that is mapped already is left as it is.
pub open spec fn map_if_absent_spec(
    space: SpaceView,
    frames: Seq<u64>,
    offset: u64,
    phys: u64,
    flags: u64,
) -> MapOutcome {
    if space.pages.contains_key(page_of((phys + offset) as u64)) {
        MapOutcome { space, frames, result: Ok(()) }
    } else {
        map_address_spec(space, frames, offset, phys, flags)
    }
}

/// Applies `map_if_absent_spec` to `count` frames in rising order, the first
/// of them at `cur`, and stops at the first failure.
pub open spec fn map_range_spec(
    space: SpaceView,
    frames: Seq<u64>,
    offset: u64,
    cur: u64,
    count: nat,
    flags: u64,
) -> MapOutcome
    decreases count,
{
    if count == 0 {
        MapOutcome { space, frames, result: Ok(()) }
    } else {
        let out = map_if_absent_spec(space, frames, offset, cur, flags);
        if out.result.is_err() {
            out
        } else {
            map_range_spec(
                out.space,
                out.frames,
                offset,
                (cur + 4096) as u64,
                (count - 1) as nat,
                flags,
            )
        }
    }
}

/// The first frame that a range of bytes from `start` touches.
pub open spec fn range_start(start: u64) -> u64 {
    frame_base(start)
}

/// The number of frames that `size` bytes from `start` touch, a range of no
/// bytes at the base of a frame touching none.
pub open spec fn range_frames(start: u64, size: nat) -> nat {
    ((frame_base((start + size + 4095) as u64) - frame_base(start)) / 4096) as nat
}

/// Every page mapped in `before` is mapped in `after`, to the same frame
/// with the same flags.
pub open spec fn keeps_pages(before: SpaceView, after: SpaceView) -> bool {
    forall|p: u64| #[trigger]
        before.pages.contains_key(p) ==> after.pages.contains_key(p) && after.pages[p]
            == before.pages[p]
}

/// Mapping a physical address where it is absent is idempotent: a second call
/// with the same address and flags ends as the first did, leaves the address
/// space as the first left it, and takes no frame. Both calls together take
/// at most the three frames of the table levels.
pub proof fn lemma_map_if_absent_idempotent(
    space: SpaceView,
    frames: Seq<u64>,
    offset: u64,
    phys: u64,
    flags: u64,
)
    ensures
        ({
            let first = map_if_absent_spec(space, frames, offset, phys, flags);
            let second = map_if_absent_spec(first.space, first.frames, offset, phys, flags);
            &&& second.result == first.result
            &&& second.space == first.space
            &&& second.frames == first.frames
            &&& frames.len() - second.frames.len() <= 3
        }),
{
    let first = map_if_absent_spec(space, frames, offset, phys, flags);
    let second = map_if_absent_spec(first.space, first.frames, offset, phys, flags);
    assert(second.space.level3 =~= first.space.level3);
    assert(second.space.level2 =~= first.space.level2);
    assert(second.space.level1 =~= first.space.level1);
    assert(second.space.pages =~= first.space.pages);
    assert(second.frames =~= first.frames);
}

/// Installing a mapping keeps every page that was mapped, and on success the
/// new page is mapped as asked.
pub proof fn lemma_map_page_keeps(space: SpaceView, frames: Seq<u64>, page: u64, mapping: Mapping)
    ensures
        keeps_pages(space, map_page_spec(space, frames, page, mapping).space),
        map_page_spec(space, frames, page, mapping).result.is_ok() ==> map_page_spec(
            space,
            frames,
            page,
            mapping,
        ).space.pages.contains_pair(page, mapping),
{
}

/// Mapping a range keeps every page that was mapped.
pub proof fn lemma_map_range_keeps(
    space: SpaceView,
    frames: Seq<u64>,
    offset: u64,
    cur: u64,
    count: nat,
    flags: u64,
)
    ensures
        keeps_pages(space, map_range_spec(space, frames, offset, cur, count, flags).space),
    decreases count,
{
    if count > 0 {
        let out = map_if_absent_spec(space, frames, offset, cur, flags);
        if out.result.is_ok() {
            lemma_map_range_keeps(
                out.space,
                out.frames,
                offset,
                (cur + 4096) as u64,
                (count - 1) as nat,
                flags,
            );
            let end = map_range_spec(
                out.space,
                out.frames,
                offset,
                (cur + 4096) as u64,
                (count - 1) as nat,
                flags,
            );
            assert forall|p: u64| #[trigger] space.pages.contains_key(p) implies end.space.pages.contains_key(
                p,
            ) && end.space.pages[p] == space.pages[p] by {
                assert(out.space.pages.contains_key(p));
            }
        }
    }
}

/// What is mapped through the direct map resolves through it: where the
/// offset is a whole number of pages and mapping `phys` succeeds, the alias
/// of `phys` translates to `phys`, and so does every address of its page.
pub proof fn lemma_mapped_alias_resolves(
    space: SpaceView,
    frames: Seq<u64>,
    offset: u64,
    phys: u64,
    flags: u64,
)
    requires
        offset % 4096 == 0,
        phys + offset <= u64::MAX,
        map_address_spec(space, frames, offset, phys, flags).result.is_ok(),
    ensures
        translate_spec(
            map_address_spec(space, frames, offset, phys, flags).space,
            (phys + offset) as u64,
        ) == Some(phys),
{
}

/// Where mapping `phys` if it is absent succeeds, its alias resolves, be it
/// through the new mapping or through the one that was there.
pub proof fn lemma_if_absent_resolves(
    space: SpaceView,
    frames: Seq<u64>,
    offset: u64,
    phys: u64,
    flags: u64,
)
    requires
        map_if_absent_spec(space, frames, offset, phys, flags).result.is_ok(),
    ensures
        translate_spec(
            map_if_absent_spec(space, frames, offset, phys, flags).space,
            (phys + offset) as u64,
        ).is_some(),
{
}

/// Where mapping a range succeeds, every page of the range resolves
/// afterwards: the alias of each of its `count` frames from `cur` on.
pub proof fn lemma_range_resolves(
    space: SpaceView,
    frames: Seq<u64>,
    offset: u64,
    cur: u64,
    count: nat,
    flags: u64,
    k: nat,
)
    requires
        cur + count * 4096 + offset <= u64::MAX,
        map_range_spec(space, frames, offset, cur, count, flags).result.is_ok(),
        k < count,
    ensures
        translate_spec(
            map_range_spec(space, frames, offset, cur, count, flags).space,
            (cur + k * 4096 + offset) as u64,
        ).is_some(),
    decreases count,
{
    let out = map_if_absent_spec(space, frames, offset, cur, flags);
    let next = (cur + 4096) as u64;
    let rest = map_range_spec(out.space, out.frames, offset, next, (count - 1) as nat, flags);
    assert(rest == map_range_spec(space, frames, offset, cur, count, flags));
    if k == 0 {
        lemma_map_range_keeps(out.space, out.frames, offset, next, (count - 1) as nat, flags);
        assert(out.space.pages.contains_key(page_of((cur + offset) as u64)));
    } else {
        lemma_range_resolves(out.space, out.frames, offset, next, (count - 1) as nat, flags, (k - 1) as nat);
        assert(next + (k - 1) * 4096 + offset == cur + k * 4096 + offset);
    }
}

/// Between two frame bases, the lower one below the other, lies at least one
/// whole frame, and one fewer after a step of one frame.
proof fn lemma_frames_between(cur: u64, end: u64)
    requires
        cur % 4096 == 0,
        end % 4096 == 0,
        cur < end,
    ensures
        cur + 4096 <= end,
        (end - cur) / 4096 >= 1,
        (end - (cur + 4096)) / 4096 == (end - cur) / 4096 - 1,
{
}

/// The single active page table, reached through the direct map.
pub struct AddressSpace {
    offset: u64,
    root: u64,
    level3: HashMap<u64, u64>,
    level2: HashMap<u64, u64>,
    level1: HashMap<u64, u64>,
    pages: HashMap<u64, Mapping>,
}

impl View for AddressSpace {
    type V = SpaceView;

    closed spec fn view(&self) -> SpaceView {
        SpaceView {
            level3: self.level3@,
            level2: self.level2@,
            level1: self.level1@,
            pages: self.pages@,
        }
    }
}

/// The number of the page that the four table indices of a walk lead to.
pub fn page_at(i4: u64, i3: u64, i2: u64, i1: u64) -> (page: u64)
    requires
        i4 < 512,
        i3 < 512,
        i2 < 512,
        i1 < 512,
    ensures
        page == page_at_spec(i4, i3, i2, i1),
{
    let low = ((i4 * 512 + i3) * 512 + i2) * 512 + i1;
    if i4 >= 256 {
        low + 0xf_fff0_0000_0000
    } else {
        low
    }
}

/// Creates the table `key` from the free list where it is missing.
fn ensure_table(tables: &mut HashMap<u64, u64>, key: u64, frames: &mut PageFrameAllocator) -> (ok:
    bool)
    requires
        old(frames).wf(),
    ensures
        final(frames).wf(),
        (final(tables)@, final(frames).free_frames(), ok) == table_step(
            old(tables)@,
            key,
            old(frames).free_frames(),
        ),
{
    broadcast use vstd::std_specs::hash::group_hash_axioms;
    if tables.contains_key(&key) {
        return true;
    }
    match frames.allocate_frame() {
        Some(frame) => {
            tables.insert(key, frame);
            true
        },
        None => false,
    }
}

impl AddressSpace {
    /// The direct-map offset: physical `x` is also reachable at virtual `x + offset`.
    pub closed spec fn offset(&self) -> u64 {
        self.offset
    }

    /// The frame that holds the top-level table.
    pub closed spec fn root(&self) -> u64 {
        self.root
    }

    /// Every mapped page lies under a chain of existing tables, and points at a frame.
    pub closed spec fn wf(&self) -> bool {
        &&& forall|p: u64| #[trigger]
            self.pages@.contains_key(p) ==> self.level1@.contains_key(p / PAGES_PER_LEVEL1)
                && self.level2@.contains_key(p / PAGES_PER_LEVEL2) && self.level3@.contains_key(
                p / PAGES_PER_LEVEL3,
            ) && self.pages@[p].frame % 4096 == 0
    }

    /// An address space whose top-level table, in the frame `root`, is empty.
    pub fn new(root: u64, offset: u64) -> (space: Self)
        ensures
            space.wf(),
            space.offset() == offset,
            space.root() == root,
            space@ == empty_space(),
    {
        broadcast use vstd::std_specs::hash::group_hash_axioms;
        Self {
            offset,
            root,
            level3: HashMap::new(),
            level2: HashMap::new(),
            level1: HashMap::new(),
            pages: HashMap::new(),
        }
    }

    /// The direct-map offset.
    pub fn phys_mem_offset(&self) -> (offset: u64)
        ensures
            offset == self.offset(),
    {
        self.offset
    }

    /// The frame of the top-level table.
    pub fn root_frame(&self) -> (root: u64)
        ensures
            root == self.root(),
    {
        self.root
    }

    /// Takes up a mapping found in the active page table: the page numbered
    /// `page` points at `frame` with `flags`, under tables in the frames
    /// `level3`, `level2` and `level1`. Reports whether anything changed.
    pub fn adopt(
        &mut self,
        page: u64,
        frame: u64,
        flags: u64,
        level3: u64,
        level2: u64,
        level1: u64,
    ) -> (taken: bool)
        requires
            old(self).wf(),
            frame % 4096 == 0,
        ensures
            final(self).wf(),
            final(self).offset() == old(self).offset(),
            final(self).root() == old(self).root(),
            taken == !old(self)@.pages.contains_key(page),
            final(self)@ == adopt_spec(
                old(self)@,
                page,
                (Mapping { frame, flags }),
                level3,
                level2,
                level1,
            ),
    {
        broadcast use vstd::std_specs::hash::group_hash_axioms;

        if self.pages.contains_key(&page) {
            return false;
        }
        if !self.level3.contains_key(&(page / PAGES_PER_LEVEL3)) {
            self.level3.insert(page / PAGES_PER_LEVEL3, level3);
        }
        if !self.level2.contains_key(&(page / PAGES_PER_LEVEL2)) {
            self.level2.insert(page / PAGES_PER_LEVEL2, level2);
        }
        if !self.level1.contains_key(&(page / PAGES_PER_LEVEL1)) {
            self.level1.insert(page / PAGES_PER_LEVEL1, level1);
        }
        self.pages.insert(page, Mapping { frame, flags });
        true
    }

    /// What the page numbered `page` points at, if it is mapped.
    pub fn mapping(&self, page: u64) -> (found: Option<Mapping>)
        ensures
            found == if self@.pages.contains_key(page) {
                Some(self@.pages[page])
            } else {
                None
            },
    {
        broadcast use vstd::std_specs::hash::group_hash_axioms;

        match self.pages.get(&page) {
            Some(mapping) => Some(*mapping),
            None => None,
        }
    }

    /// The frames of the tables above the page numbered `page`, from the
    /// third level down.
    pub fn table_frames(&self, page: u64) -> (frames: (Option<u64>, Option<u64>, Option<u64>))
        ensures
            frames == table_frames_spec(self@, page),
    {
        broadcast use vstd::std_specs::hash::group_hash_axioms;

        let level3 = match self.level3.get(&(page / PAGES_PER_LEVEL3)) {
            Some(frame) => Some(*frame),
            None => None,
        };
        let level2 = match self.level2.get(&(page / PAGES_PER_LEVEL2)) {
            Some(frame) => Some(*frame),
            None => None,
        };
        let level1 = match self.level1.get(&(page / PAGES_PER_LEVEL1)) {
            Some(frame) => Some(*frame),
            None => None,
        };
        (level3, level2, level1)
    }

    /// Walks the table levels for `addr`; unmapped on any missing level.
    pub fn translate_addr(&self, addr: u64) -> (phys: Option<u64>)
        requires
            self.wf(),
        ensures
            phys == translate_spec(self@, addr),
    {
        broadcast use vstd::std_specs::hash::group_hash_axioms;
        let page: u64 = addr / 4096;
        if !self.level3.contains_key(&(page / PAGES_PER_LEVEL3)) {
            return None;
        }
        if !self.level2.contains_key(&(page / PAGES_PER_LEVEL2)) {
            return None;
        }
        if !self.level1.contains_key(&(page / PAGES_PER_LEVEL1)) {
            return None;
        }
        match self.pages.get(&page) {
            Some(mapping) => Some(mapping.frame + addr % 4096),
            None => None,
        }
    }

    /// The direct-map alias of `addr`, if there is one and it resolves.
    pub fn translate_phys_addr(&self, addr: u64) -> (virt: Option<u64>)
        requires
            self.wf(),
        ensures
            virt == if addr + self.offset() <= u64::MAX && translate_spec(
                self@,
                (addr + self.offset()) as u64,
            ).is_some() {
                Some((addr + self.offset()) as u64)
            } else {
                None
            },
    {
        if addr > u64::MAX - self.offset {
            return None;
        }
        let virt_addr = addr + self.offset;
        if self.translate_addr(virt_addr).is_some() {
            Some(virt_addr)
        } else {
            None
        }
    }

    /// The direct-map alias of `addr`, whether or not it resolves.
    pub fn translate_phys_addr_unsafe(&self, addr: u64) -> (virt: u64)
        requires
            addr + self.offset() <= u64::MAX,
        ensures
            virt == addr + self.offset(),
    {
        addr + self.offset
    }

    /// Maps the page numbered `page` to `frame`, creating the table levels
    /// that are missing from `frames`.
    pub fn map_to(
        &mut self,
        page: u64,
        frame: u64,
        flags: u64,
        frames: &mut PageFrameAllocator,
    ) -> (res: Result<(), MemoryError>)
        requires
            old(self).wf(),
            old(frames).wf(),
            frame % 4096 == 0,
        ensures
            final(self).wf(),
            final(frames).wf(),
            final(self).offset() == old(self).offset(),
            final(self).root() == old(self).root(),
            ({
                let out = map_page_spec(
                    old(self)@,
                    old(frames).free_frames(),
                    page,
                    (Mapping { frame, flags }),
                );
                &&& final(self)@ == out.space
                &&& final(frames).free_frames() == out.frames
                &&& res == out.result
            }),
    {
        broadcast use vstd::std_specs::hash::group_hash_axioms;
        if !ensure_table(&mut self.level3, page / PAGES_PER_LEVEL3, frames) {
            return Err(MemoryError::MappingFailed);
        }
        if !ensure_table(&mut self.level2, page / PAGES_PER_LEVEL2, frames) {
            return Err(MemoryError::MappingFailed);
        }
        if !ensure_table(&mut self.level1, page / PAGES_PER_LEVEL1, frames) {
            return Err(MemoryError::MappingFailed);
        }
        if self.pages.contains_key(&page) {
            return Err(MemoryError::MappingFailed);
        }
        self.pages.insert(page, Mapping { frame, flags });
        Ok(())
    }

    /// Maps the frame of `phys_addr` at its direct-map alias and returns the
    /// alias of `phys_addr`.
    pub fn map_address(&mut self, frames: &mut PageFrameAllocator, phys_addr: u64, flags: u64) -> (res:
        Result<u64, MemoryError>)
        requires
            old(self).wf(),
            old(frames).wf(),
            phys_addr + old(self).offset() <= u64::MAX,
        ensures
            final(self).wf(),
            final(frames).wf(),
            final(self).offset() == old(self).offset(),
            final(self).root() == old(self).root(),
            ({
                let out = map_address_spec(
                    old(self)@,
                    old(frames).free_frames(),
                    old(self).offset(),
                    phys_addr,
                    flags,
                );
                &&& final(self)@ == out.space
                &&& final(frames).free_frames() == out.frames
                &&& res == match out.result {
                    Ok(_) => Ok::<u64, MemoryError>((phys_addr + old(self).offset()) as u64),
                    Err(e) => Err(e),
                }
            }),
    {
        let virt_addr = self.translate_phys_addr_unsafe(phys_addr);
        match self.map_to(virt_addr / 4096, align_down(phys_addr), flags, frames) {
            Ok(()) => Ok(virt_addr),
            Err(e) => Err(e),
        }
    }

    /// As `map_address`, but does nothing where the alias resolves already.
    pub fn map_address_if_not_present(
        &mut self,
        frames: &mut PageFrameAllocator,
        phys_addr: u64,
        flags: u64,
    ) -> (res: Result<u64, MemoryError>)
        requires
            old(self).wf(),
            old(frames).wf(),
            phys_addr + old(self).offset() <= u64::MAX,
        ensures
            final(self).wf(),
            final(frames).wf(),
            final(self).offset() == old(self).offset(),
            final(self).root() == old(self).root(),
            ({
                let out = map_if_absent_spec(
                    old(self)@,
                    old(frames).free_frames(),
                    old(self).offset(),
                    phys_addr,
                    flags,
                );
                &&& final(self)@ == out.space
                &&& final(frames).free_frames() == out.frames
                &&& res == match out.result {
                    Ok(_) => Ok::<u64, MemoryError>((phys_addr + old(self).offset()) as u64),
                    Err(e) => Err(e),
                }
            }),
    {
        let virt_addr = self.translate_phys_addr_unsafe(phys_addr);
        if self.translate_addr(virt_addr).is_none() {
            match self.map_to(virt_addr / 4096, align_down(phys_addr), flags, frames) {
                Ok(()) => {},
                Err(e) => {
                    return Err(e);
                },
            }
        }
        Ok(virt_addr)
    }

    /// Applies `map_address_if_not_present` to every page that covers
    /// `size` bytes from `start`, and returns the alias of the first page.
    pub fn map_address_range(
        &mut self,
        frames: &mut PageFrameAllocator,
        start: u64,
        size: usize,
        flags: u64,
    ) -> (res: Result<u64, MemoryError>)
        requires
            old(self).wf(),
            old(frames).wf(),
            start + size + 4095 + old(self).offset() <= u64::MAX,
        ensures
            final(self).wf(),
            final(frames).wf(),
            final(self).offset() == old(self).offset(),
            final(self).root() == old(self).root(),
            ({
                let out = map_range_spec(
                    old(self)@,
                    old(frames).free_frames(),
                    old(self).offset(),
                    range_start(start),
                    range_frames(start, size as nat),
                    flags,
                );
                &&& final(self)@ == out.space
                &&& final(frames).free_frames() == out.frames
                &&& res == match out.result {
                    Ok(_) => Ok::<u64, MemoryError>((range_start(start) + old(self).offset()) as u64),
                    Err(e) => Err(e),
                }
            }),
    {
        let start_addr = align_down(start);
        let end_addr = align_down(start + size as u64 + 4095);
        let mut current_addr = start_addr;
        let virt_start = self.translate_phys_addr_unsafe(current_addr);
        while current_addr < end_addr
            invariant
                self.wf(),
                frames.wf(),
                self.offset() == old(self).offset(),
                self.root() == old(self).root(),
                current_addr % 4096 == 0,
                end_addr % 4096 == 0,
                end_addr + self.offset() <= u64::MAX,
                start_addr <= current_addr <= end_addr,
                start_addr == range_start(start),
                virt_start == start_addr + self.offset(),
                (end_addr - start_addr) / 4096 == range_frames(start, size as nat),
                map_range_spec(
                    self@,
                    frames.free_frames(),
                    self.offset(),
                    current_addr,
                    ((end_addr - current_addr) / 4096) as nat,
                    flags,
                ) == map_range_spec(
                    old(self)@,
                    old(frames).free_frames(),
                    old(self).offset(),
                    start_addr,
                    range_frames(start, size as nat),
                    flags,
                ),
            decreases end_addr - current_addr,
        {
            proof {
                lemma_frames_between(current_addr, end_addr);
            }
            match self.map_address_if_not_present(frames, current_addr, flags) {
                Ok(_) => {},
                Err(e) => {
                    return Err(e);
                },
            }
            current_addr += 4096;
        }
        Ok(virt_start)
    }
}

} // verus!
