//! Physical frames, the address space, the heap span and the context that
//! brings them up in order.

use vstd::prelude::*;
use crate::memory::allocator::{back_pages_spec, heap_covered, lemma_cover_kept, HeapSpan};
use crate::memory::frame_alloc::{
    after_take, map_frames, regions_fit, taken, MemoryRegion, PageFrameAllocator,
};
use crate::memory::mapper::{
    adopt_spec, empty_space, lemma_map_page_keeps, lemma_map_range_keeps, map_address_spec,
    map_if_absent_spec, map_range_spec, range_frames, range_start, table_frames_spec,
    translate_spec, AddressSpace, Mapping, SpaceView, DEVICE_FLAGS,
};

pub mod allocator;
pub mod frame_alloc;
pub mod mapper;

verus! {

/// Size in bytes of a physical frame and of a virtual page.
pub const FRAME_SIZE: u64 = 4096;

/// What can go wrong inside the memory-management core.
#[derive(Debug, Clone, Copy, PartialEq, Eq, Structural)]
pub enum MemoryError {
    /// The free list is empty.
    OutOfPhysicalFrames,
    /// A page-table slot or a frame for an intermediate table level could not be had.
    MappingFailed,
    /// The arena cannot satisfy a request.
    OutOfHeapMemory,
    /// A one-shot initialisation step was asked for out of order, or twice.
    WrongStage,
}

/// The base address of the frame that holds `addr`.
pub open spec fn frame_base(addr: u64) -> u64 {
    (addr - addr % 4096) as u64
}

/// Rounds an address down to the base of its frame.
pub fn align_down(addr: u64) -> (base: u64)
    ensures
        base == frame_base(addr),
        base % 4096 == 0,
        base <= addr < base + 4096,
{
    addr - addr % FRAME_SIZE
}

/// How far the memory-management core has been brought up. Each stage is
/// entered once, in this order, and never left backwards.
#[derive(Debug, Clone, Copy, PartialEq, Eq, Structural)]
pub enum Stage {
    /// Nothing is set up.
    Uninitialized,
    /// The free list holds the frames of the memory map.
    FramesReady,
    /// The active page table and the direct-map offset are known.
    AddressSpaceReady,
    /// The heap span is backed and handed to the arena.
    HeapReady,
}

/// A region of physical memory that was made reachable for a collaborator.
#[derive(Debug, Clone, Copy, PartialEq, Eq, Structural)]
pub struct PhysicalMapping {
    /// The physical address that was asked for.
    pub physical_start: u64,
    /// The direct-map alias of the first page of the region.
    pub virtual_start: u64,
    /// The length that was asked for, in bytes.
    pub region_length: usize,
    /// The length rounded up to whole pages.
    pub mapped_length: usize,
}

/// `size` rounded up to a multiple of the page size.
pub open spec fn whole_pages(size: usize) -> int {
    (size + 4095) / 4096 * 4096
}

/// The state of the memory-management core: the free list, the address space
/// and the heap span, behind the stage that says which of them are set up.
pub struct MemoryManager {
    stage: Stage,
    frames: PageFrameAllocator,
    space: AddressSpace,
    span: HeapSpan,
}

impl MemoryManager {
    /// The stage reached.
    pub closed spec fn stage(&self) -> Stage {
        self.stage
    }

    /// The free frames, oldest first.
    pub closed spec fn free_frames(&self) -> Seq<u64> {
        self.frames.free_frames()
    }

    /// The contents of the address space.
    pub closed spec fn space(&self) -> SpaceView {
        self.space@
    }

    /// The direct-map offset.
    pub closed spec fn offset(&self) -> u64 {
        self.space.offset()
    }

    /// The frame of the top-level table.
    pub closed spec fn root(&self) -> u64 {
        self.space.root()
    }

    /// The heap span.
    pub closed spec fn span(&self) -> HeapSpan {
        self.span
    }

    /// The parts are well formed; nothing is free before the memory map was
    /// read, nothing is mapped before the page table is known, and once the
    /// heap is ready every page of its span is mapped present and writable.
    pub closed spec fn wf(&self) -> bool {
        &&& self.frames.wf()
        &&& self.space.wf()
        &&& self.stage == Stage::Uninitialized ==> self.frames.free_frames().len() == 0
        &&& (self.stage == Stage::Uninitialized || self.stage == Stage::FramesReady)
            ==> self.space@ == empty_space()
        &&& self.stage == Stage::HeapReady ==> self.span.fits() && heap_covered(
            self.space@,
            self.span,
        )
    }

    /// Once the heap is ready its span is covered, whatever was mapped since.
    pub proof fn lemma_ready_heap_is_covered(&self)
        requires
            self.wf(),
            self.stage() == Stage::HeapReady,
        ensures
            self.span().fits(),
            heap_covered(self.space(), self.span()),
    {
    }

    /// A manager in which nothing is set up.
    pub fn new() -> (manager: Self)
        ensures
            manager.wf(),
            manager.stage() == Stage::Uninitialized,
            manager.free_frames() == Seq::<u64>::empty(),
            manager.space() == empty_space(),
    {
        MemoryManager {
            stage: Stage::Uninitialized,
            frames: PageFrameAllocator::new(),
            space: AddressSpace::new(0, 0),
            span: HeapSpan { start: 0, size: 0 },
        }
    }

    /// The stage reached.
    pub fn current_stage(&self) -> (stage: Stage)
        ensures
            stage == self.stage(),
    {
        self.stage
    }

    /// Whether the heap is ready.
    pub fn is_init(&self) -> (ready: bool)
        ensures
            ready == (self.stage() == Stage::HeapReady),
    {
        self.stage == Stage::HeapReady
    }

    /// Reads the memory map into the free list. Only the first call does
    /// anything; a later one is refused with `WrongStage`.
    pub fn init_frames(&mut self, regions: &Vec<MemoryRegion>) -> (res: Result<(), MemoryError>)
        requires
            old(self).wf(),
            regions_fit(regions@),
        ensures
            final(self).wf(),
            old(self).stage() == Stage::Uninitialized ==> res.is_ok() && final(self).stage()
                == Stage::FramesReady && final(self).free_frames() == map_frames(regions@)
                && final(self).space() == old(self).space(),
            final(self).offset() == old(self).offset(),
            final(self).root() == old(self).root(),
            final(self).span() == old(self).span(),
            old(self).stage() != Stage::Uninitialized ==> res == Err::<(), MemoryError>(
                MemoryError::WrongStage,
            ) && *final(self) == *old(self),
    {
        if self.stage != Stage::Uninitialized {
            return Err(MemoryError::WrongStage);
        }
        self.frames.init(regions);
        self.stage = Stage::FramesReady;
        proof {
            assert(Seq::<u64>::empty() + map_frames(regions@) == map_frames(regions@));
        }
        Ok(())
    }

    /// Takes up the active page table, whose top level lies in the frame
    /// `root`, and the direct-map offset. Only the first call after
    /// `init_frames` does anything; any other is refused with `WrongStage`.
    pub fn init_mapper(&mut self, root: u64, offset: u64) -> (res: Result<(), MemoryError>)
        requires
            old(self).wf(),
        ensures
            final(self).wf(),
            old(self).stage() == Stage::FramesReady ==> res.is_ok() && final(self).stage()
                == Stage::AddressSpaceReady && final(self).offset() == offset && final(self).root()
                == root && final(self).free_frames() == old(self).free_frames(),
            old(self).stage() == Stage::FramesReady ==> final(self).space() == empty_space(),
            final(self).span() == old(self).span(),
            old(self).stage() != Stage::FramesReady ==> res == Err::<(), MemoryError>(
                MemoryError::WrongStage,
            ) && *final(self) == *old(self),
    {
        if self.stage != Stage::FramesReady {
            return Err(MemoryError::WrongStage);
        }
        self.space = AddressSpace::new(root, offset);
        self.stage = Stage::AddressSpaceReady;
        Ok(())
    }

    /// Backs every page of `span` and, where that succeeds, makes the heap
    /// ready. Where a frame or a mapping cannot be had the error is handed
    /// on, the heap is not ready, and what was taken and mapped stays so.
    /// Before the page table is known, or once the heap is ready, the call is
    /// refused with `WrongStage`.
    pub fn init_heap(&mut self, span: HeapSpan) -> (res: Result<(), MemoryError>)
        requires
            old(self).wf(),
            span.fits(),
        ensures
            final(self).wf(),
            final(self).offset() == old(self).offset(),
            final(self).root() == old(self).root(),
            old(self).stage() == Stage::AddressSpaceReady ==> ({
                let out = back_pages_spec(
                    old(self).space(),
                    old(self).free_frames(),
                    span.first_page(),
                    span.page_count(),
                );
                &&& final(self).space() == out.space
                &&& final(self).free_frames() == out.frames
                &&& res == out.result
                &&& final(self).stage() == if res.is_ok() {
                    Stage::HeapReady
                } else {
                    Stage::AddressSpaceReady
                }
                &&& final(self).span() == if res.is_ok() {
                    span
                } else {
                    old(self).span()
                }
            }),
            old(self).stage() != Stage::AddressSpaceReady ==> res == Err::<(), MemoryError>(
                MemoryError::WrongStage,
            ) && *final(self) == *old(self),
    {
        if self.stage != Stage::AddressSpaceReady {
            return Err(MemoryError::WrongStage);
        }
        let res = allocator::init(&mut self.space, &mut self.frames, span);
        if res.is_ok() {
            self.span = span;
            self.stage = Stage::HeapReady;
        }
        res
    }

    /// Number of free frames remaining.
    pub fn free_count(&self) -> (count: usize)
        requires
            self.wf(),
        ensures
            count == self.free_frames().len(),
    {
        self.frames.free_count()
    }

    /// Hands out the top free frame, or fails with `OutOfPhysicalFrames`
    /// where the list is empty.
    pub fn allocate_frame(&mut self) -> (res: Result<u64, MemoryError>)
        requires
            old(self).wf(),
        ensures
            final(self).wf(),
            final(self).stage() == old(self).stage(),
            final(self).space() == old(self).space(),
            final(self).offset() == old(self).offset(),
            final(self).root() == old(self).root(),
            final(self).span() == old(self).span(),
            final(self).free_frames() == after_take(old(self).free_frames()),
            res == match taken(old(self).free_frames()) {
                Some(frame) => Ok::<u64, MemoryError>(frame),
                None => Err(MemoryError::OutOfPhysicalFrames),
            },
    {
        match self.frames.allocate_frame() {
            Some(frame) => Ok(frame),
            None => Err(MemoryError::OutOfPhysicalFrames),
        }
    }

    /// The physical address that `addr` resolves to, if its page is mapped.
    pub fn translate_addr(&self, addr: u64) -> (phys: Option<u64>)
        requires
            self.wf(),
        ensures
            phys == translate_spec(self.space(), addr),
    {
        self.space.translate_addr(addr)
    }

    /// The direct-map alias of `addr`, if there is one and it resolves.
    pub fn translate_phys_addr(&self, addr: u64) -> (virt: Option<u64>)
        requires
            self.wf(),
        ensures
            virt == if addr + self.offset() <= u64::MAX && translate_spec(
                self.space(),
                (addr + self.offset()) as u64,
            ).is_some() {
                Some((addr + self.offset()) as u64)
            } else {
                None
            },
    {
        self.space.translate_phys_addr(addr)
    }

    /// Maps the frame of `phys_addr` at its direct-map alias and returns the
    /// alias of `phys_addr`. Refused with `WrongStage` before the page table
    /// is known; `MappingFailed` where the slot is taken or a table level is
    /// missing and no frame is free.
    pub fn map_address(&mut self, phys_addr: u64, flags: u64) -> (res: Result<u64, MemoryError>)
        requires
            old(self).wf(),
            phys_addr + old(self).offset() <= u64::MAX,
        ensures
            final(self).wf(),
            final(self).stage() == old(self).stage(),
            final(self).offset() == old(self).offset(),
            final(self).root() == old(self).root(),
            final(self).span() == old(self).span(),
            !old(self).mapper_ready() ==> res == Err::<u64, MemoryError>(MemoryError::WrongStage)
                && *final(self) == *old(self),
            old(self).mapper_ready() ==> ({
                let out = map_address_spec(
                    old(self).space(),
                    old(self).free_frames(),
                    old(self).offset(),
                    phys_addr,
                    flags,
                );
                &&& final(self).space() == out.space
                &&& final(self).free_frames() == out.frames
                &&& res == match out.result {
                    Ok(_) => Ok::<u64, MemoryError>((phys_addr + old(self).offset()) as u64),
                    Err(e) => Err(e),
                }
            }),
    {
        if !self.has_mapper() {
            return Err(MemoryError::WrongStage);
        }
        proof {
            lemma_map_page_keeps(
                self.space@,
                self.frames.free_frames(),
                mapper::page_of((phys_addr + self.space.offset()) as u64),
                Mapping { frame: frame_base(phys_addr), flags },
            );
            if self.stage == Stage::HeapReady {
                lemma_cover_kept(
                    self.space@,
                    map_address_spec(
                        self.space@,
                        self.frames.free_frames(),
                        self.space.offset(),
                        phys_addr,
                        flags,
                    ).space,
                    self.span,
                );
            }
        }
        self.space.map_address(&mut self.frames, phys_addr, flags)
    }

    /// As `map_address`, but does nothing where the alias resolves already.
    pub fn map_address_if_not_present(&mut self, phys_addr: u64, flags: u64) -> (res: Result<
        u64,
        MemoryError,
    >)
        requires
            old(self).wf(),
            phys_addr + old(self).offset() <= u64::MAX,
        ensures
            final(self).wf(),
            final(self).stage() == old(self).stage(),
            final(self).offset() == old(self).offset(),
            final(self).root() == old(self).root(),
            final(self).span() == old(self).span(),
            !old(self).mapper_ready() ==> res == Err::<u64, MemoryError>(MemoryError::WrongStage)
                && *final(self) == *old(self),
            old(self).mapper_ready() ==> ({
                let out = map_if_absent_spec(
                    old(self).space(),
                    old(self).free_frames(),
                    old(self).offset(),
                    phys_addr,
                    flags,
                );
                &&& final(self).space() == out.space
                &&& final(self).free_frames() == out.frames
                &&& res == match out.result {
                    Ok(_) => Ok::<u64, MemoryError>((phys_addr + old(self).offset()) as u64),
                    Err(e) => Err(e),
                }
            }),
    {
        if !self.has_mapper() {
            return Err(MemoryError::WrongStage);
        }
        proof {
            lemma_map_range_keeps(
                self.space@,
                self.frames.free_frames(),
                self.space.offset(),
                phys_addr,
                1,
                flags,
            );
            let one = map_range_spec(
                self.space@,
                self.frames.free_frames(),
                self.space.offset(),
                phys_addr,
                1,
                flags,
            );
            let out = map_if_absent_spec(
                self.space@,
                self.frames.free_frames(),
                self.space.offset(),
                phys_addr,
                flags,
            );
            assert(map_range_spec(
                out.space,
                out.frames,
                self.space.offset(),
                (phys_addr + 4096) as u64,
                0,
                flags,
            ).space == out.space);
            assert(one.space == out.space);
            if self.stage == Stage::HeapReady {
                lemma_cover_kept(self.space@, out.space, self.span);
            }
        }
        self.space.map_address_if_not_present(&mut self.frames, phys_addr, flags)
    }

    /// Applies `map_address_if_not_present` to every page that covers `size`
    /// bytes from `start`, and returns the alias of the first page.
    pub fn map_address_range(&mut self, start: u64, size: usize, flags: u64) -> (res: Result<
        u64,
        MemoryError,
    >)
        requires
            old(self).wf(),
            start + size + 4095 + old(self).offset() <= u64::MAX,
        ensures
            final(self).wf(),
            final(self).stage() == old(self).stage(),
            final(self).offset() == old(self).offset(),
            final(self).root() == old(self).root(),
            final(self).span() == old(self).span(),
            !old(self).mapper_ready() ==> res == Err::<u64, MemoryError>(MemoryError::WrongStage)
                && *final(self) == *old(self),
            old(self).mapper_ready() ==> ({
                let out = map_range_spec(
                    old(self).space(),
                    old(self).free_frames(),
                    old(self).offset(),
                    range_start(start),
                    range_frames(start, size as nat),
                    flags,
                );
                &&& final(self).space() == out.space
                &&& final(self).free_frames() == out.frames
                &&& res == match out.result {
                    Ok(_) => Ok::<u64, MemoryError>(
                        (range_start(start) + old(self).offset()) as u64,
                    ),
                    Err(e) => Err(e),
                }
            }),
    {
        if !self.has_mapper() {
            return Err(MemoryError::WrongStage);
        }
        proof {
            lemma_map_range_keeps(
                self.space@,
                self.frames.free_frames(),
                self.space.offset(),
                range_start(start),
                range_frames(start, size as nat),
                flags,
            );
            if self.stage == Stage::HeapReady {
                lemma_cover_kept(
                    self.space@,
                    map_range_spec(
                        self.space@,
                        self.frames.free_frames(),
                        self.space.offset(),
                        range_start(start),
                        range_frames(start, size as nat),
                        flags,
                    ).space,
                    self.span,
                );
            }
        }
        self.space.map_address_range(&mut self.frames, start, size, flags)
    }

    /// Takes up a mapping found in the active page table; see
    /// `AddressSpace::adopt`. Before the page table is known nothing is taken.
    pub fn adopt_mapping(
        &mut self,
        page: u64,
        frame: u64,
        flags: u64,
        level3: u64,
        level2: u64,
        level1: u64,
    ) -> (taken: bool)
        requires
            old(self).wf(),
            frame % 4096 == 0,
        ensures
            final(self).wf(),
            final(self).stage() == old(self).stage(),
            final(self).offset() == old(self).offset(),
            final(self).root() == old(self).root(),
            final(self).span() == old(self).span(),
            final(self).free_frames() == old(self).free_frames(),
            taken == (old(self).mapper_ready() && !old(self).space().pages.contains_key(page)),
            final(self).space() == if old(self).mapper_ready() {
                adopt_spec(
                    old(self).space(),
                    page,
                    Mapping { frame, flags },
                    level3,
                    level2,
                    level1,
                )
            } else {
                old(self).space()
            },
    {
        if !self.has_mapper() {
            return false;
        }
        proof {
            if self.stage == Stage::HeapReady {
                lemma_cover_kept(
                    self.space@,
                    adopt_spec(
                        self.space@,
                        page,
                        Mapping { frame, flags },
                        level3,
                        level2,
                        level1,
                    ),
                    self.span,
                );
            }
        }
        self.space.adopt(page, frame, flags, level3, level2, level1)
    }

    /// What the page numbered `page` points at, if it is mapped.
    pub fn mapping(&self, page: u64) -> (found: Option<Mapping>)
        ensures
            found == if self.space().pages.contains_key(page) {
                Some(self.space().pages[page])
            } else {
                None
            },
    {
        self.space.mapping(page)
    }

    /// The frames of the tables above the page numbered `page`, from the
    /// third level down.
    pub fn table_frames(&self, page: u64) -> (frames: (Option<u64>, Option<u64>, Option<u64>))
        ensures
            frames == table_frames_spec(self.space(), page),
    {
        self.space.table_frames(page)
    }

    /// Makes `size` bytes of physical memory from `physical_address`
    /// reachable as a window onto device memory: every page of the range
    /// that is not mapped yet is mapped at its direct-map alias, present,
    /// writable, uncached and not executable.
    pub fn map_physical_region(&mut self, physical_address: u64, size: usize) -> (res: Result<
        PhysicalMapping,
        MemoryError,
    >)
        requires
            old(self).wf(),
            physical_address + size + 4095 + old(self).offset() <= u64::MAX,
            size + 4095 <= usize::MAX,
        ensures
            final(self).wf(),
            final(self).stage() == old(self).stage(),
            final(self).offset() == old(self).offset(),
            final(self).root() == old(self).root(),
            final(self).span() == old(self).span(),
            !old(self).mapper_ready() ==> res == Err::<PhysicalMapping, MemoryError>(
                MemoryError::WrongStage,
            ) && *final(self) == *old(self),
            old(self).mapper_ready() ==> ({
                let out = map_range_spec(
                    old(self).space(),
                    old(self).free_frames(),
                    old(self).offset(),
                    range_start(physical_address),
                    range_frames(physical_address, size as nat),
                    DEVICE_FLAGS,
                );
                &&& final(self).space() == out.space
                &&& final(self).free_frames() == out.frames
                &&& res == match out.result {
                    Ok(_) => Ok::<PhysicalMapping, MemoryError>(
                        PhysicalMapping {
                            physical_start: physical_address,
                            virtual_start: (range_start(physical_address) + old(
                                self,
                            ).offset()) as u64,
                            region_length: size,
                            mapped_length: whole_pages(size) as usize,
                        },
                    ),
                    Err(e) => Err(e),
                }
            }),
    {
        let mapped = match self.map_address_range(physical_address, size, DEVICE_FLAGS) {
            Ok(virt) => virt,
            Err(e) => {
                return Err(e);
            },
        };
        Ok(
            PhysicalMapping {
                physical_start: physical_address,
                virtual_start: mapped,
                region_length: size,
                mapped_length: (size + 4095) / 4096 * 4096,
            },
        )
    }

    /// The page table is known: the stage is `AddressSpaceReady` or `HeapReady`.
    pub open spec fn mapper_ready(&self) -> bool {
        self.stage() == Stage::AddressSpaceReady || self.stage() == Stage::HeapReady
    }

    /// Whether the page table is known.
    pub fn has_mapper(&self) -> (ready: bool)
        ensures
            ready == self.mapper_ready(),
    {
        self.stage == Stage::AddressSpaceReady || self.stage == Stage::HeapReady
    }

    /// The heap span, once the heap is ready.
    pub fn heap_span(&self) -> (span: Option<HeapSpan>)
        ensures
            span == if self.stage() == Stage::HeapReady {
                Some(self.span())
            } else {
                None
            },
    {
        if self.stage == Stage::HeapReady {
            Some(self.span)
        } else {
            None
        }
    }
}

/// The direct-map offset of `manager`.
pub fn phys_mem_offset(manager: &MemoryManager) -> (offset: u64)
    ensures
        offset == manager.offset(),
{
    manager.space.phys_mem_offset()
}

} // verus!
