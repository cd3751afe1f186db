//! The one interface through which the rest of the kernel reaches memory
//! management: bring-up in the fixed order, and the four heap primitives.

use vstd::prelude::*;
use crate::memory::{MemoryError, MemoryManager, Stage};
use crate::memory::allocator;
use crate::memory::allocator::{
    back_pages_spec, step_spec, HeapRequest, HeapSpan, HeapStep, Layout, Phase, NULL,
};
use crate::memory::frame_alloc::{map_frames, regions_fit, MemoryRegion};
use crate::memory::mapper::empty_space;

verus! {

/// The memory-management interface of the kernel, over the manager it owns.
pub struct MemoryApi {
    /// The state behind the interface.
    pub manager: MemoryManager,
}

impl MemoryApi {
    /// What a heap primitive answers: its step once the heap is ready, and
    /// null at once before that, so that a caller can fall back.
    pub open spec fn answer(&self, request: HeapRequest, phase: Phase, reply: u64) -> HeapStep {
        if self.manager.stage() == Stage::HeapReady {
            step_spec(request, phase, reply)
        } else {
            HeapStep::Return { ptr: NULL }
        }
    }

    /// An interface over a manager in which nothing is set up.
    pub fn new() -> (api: Self)
        ensures
            api.manager.wf(),
            api.manager.stage() == Stage::Uninitialized,
    {
        MemoryApi { manager: MemoryManager::new() }
    }

    /// Brings memory management up in its fixed order: the free list from
    /// the memory map, then the page table with its top level in `root` and
    /// the direct-map `offset`, then the heap over `span`.
    ///
    /// It does so once: on a manager that is past `Uninitialized` the call is
    /// refused with `WrongStage`. A failure to back the heap is handed on and
    /// leaves the manager at `AddressSpaceReady`.
    pub fn init(
        &mut self,
        regions: &Vec<MemoryRegion>,
        root: u64,
        offset: u64,
        span: HeapSpan,
    ) -> (res: Result<(), MemoryError>)
        requires
            old(self).manager.wf(),
            regions_fit(regions@),
            span.fits(),
        ensures
            final(self).manager.wf(),
            old(self).manager.stage() != Stage::Uninitialized ==> res == Err::<(), MemoryError>(
                MemoryError::WrongStage,
            ) && *final(self) == *old(self),
            old(self).manager.stage() == Stage::Uninitialized ==> ({
                let out = back_pages_spec(
                    empty_space(),
                    map_frames(regions@),
                    span.first_page(),
                    span.page_count(),
                );
                &&& res == out.result
                &&& final(self).manager.space() == out.space
                &&& final(self).manager.free_frames() == out.frames
                &&& final(self).manager.offset() == offset
                &&& final(self).manager.root() == root
                &&& final(self).manager.stage() == if res.is_ok() {
                    Stage::HeapReady
                } else {
                    Stage::AddressSpaceReady
                }
                &&& final(self).manager.span() == if res.is_ok() {
                    span
                } else {
                    old(self).manager.span()
                }
            }),
    {
        match self.manager.init_frames(regions) {
            Ok(()) => {},
            Err(e) => {
                return Err(e);
            },
        }
        match self.manager.init_mapper(root, offset) {
            Ok(()) => {},
            Err(e) => {
                return Err(e);
            },
        }
        self.manager.init_heap(span)
    }

    /// Whether the heap is ready.
    pub fn is_init(&self) -> (ready: bool)
        ensures
            ready == (self.manager.stage() == Stage::HeapReady),
    {
        self.manager.is_init()
    }

    /// Starts an allocation.
    pub fn allocate(&self, layout: Layout) -> (first: HeapStep)
        ensures
            first == self.answer((HeapRequest::Alloc { layout }), Phase::Begin, NULL),
    {
        if !self.manager.is_init() {
            return HeapStep::Return { ptr: NULL };
        }
        allocator::allocate(layout)
    }

    /// Starts a zeroed allocation.
    pub fn alloc_zeroed(&self, layout: Layout) -> (first: HeapStep)
        ensures
            first == self.answer((HeapRequest::AllocZeroed { layout }), Phase::Begin, NULL),
    {
        if !self.manager.is_init() {
            return HeapStep::Return { ptr: NULL };
        }
        allocator::alloc_zeroed(layout)
    }

    /// Starts a deallocation.
    pub fn dealloc(&self, ptr: u64, layout: Layout) -> (first: HeapStep)
        ensures
            first == self.answer((HeapRequest::Dealloc { ptr, layout }), Phase::Begin, NULL),
    {
        if !self.manager.is_init() {
            return HeapStep::Return { ptr: NULL };
        }
        allocator::dealloc(ptr, layout)
    }

    /// Starts a reallocation.
    pub fn realloc(&self, ptr: u64, layout: Layout, new_size: usize) -> (first: HeapStep)
        ensures
            first == self.answer(
                (HeapRequest::Realloc { ptr, layout, new_size }),
                Phase::Begin,
                NULL,
            ),
    {
        if !self.manager.is_init() {
            return HeapStep::Return { ptr: NULL };
        }
        allocator::realloc(ptr, layout, new_size)
    }

    /// Goes on with `request` from `phase`, given the arena's answer `reply`.
    pub fn resume(&self, request: HeapRequest, phase: Phase, reply: u64) -> (next: HeapStep)
        ensures
            next == self.answer(request, phase, reply),
    {
        if !self.manager.is_init() {
            return HeapStep::Return { ptr: NULL };
        }
        allocator::step(request, phase, reply)
    }
}

} // verus!
