//! The kernel heap: backing its span with frames, and the decisions of the
//! four heap primitives around the arena that serves them.

use vstd::prelude::*;
use crate::memory::MemoryError;
use crate::memory::frame_alloc::PageFrameAllocator;
use crate::memory::mapper::{
    keeps_pages, lemma_map_page_keeps, map_page_spec, page_of, translate_spec, AddressSpace,
    MapOutcome, Mapping, SpaceView,
};

verus! {

/// Virtual address at which the kernel heap starts.
pub const HEAP_START: u64 = 0xffff_8800_0000_0000;

/// Size of the kernel heap in bytes: 16 MiB.
pub const HEAP_SIZE: u64 = 16 * 1024 * 1024;

/// Flags of a heap page: present and writable.
pub const HEAP_FLAGS: u64 = 3;

/// The pointer that stands for failure.
pub const NULL: u64 = 0;

/// A contiguous virtual region handed to the arena as one pool.
#[derive(Debug, Clone, Copy, PartialEq, Eq, Structural)]
pub struct HeapSpan {
    /// Virtual address of the first byte.
    pub start: u64,
    /// Length in bytes.
    pub size: u64,
}

impl HeapSpan {
    /// The span ends inside the 64-bit address space.
    pub open spec fn fits(self) -> bool {
        self.start + self.size <= u64::MAX
    }

    /// Whether `addr` lies in the span.
    pub open spec fn contains(self, addr: u64) -> bool {
        self.start <= addr < self.start + self.size
    }

    /// Number of the first page of the span.
    pub open spec fn first_page(self) -> u64 {
        page_of(self.start)
    }

    /// How many pages the span touches.
    pub open spec fn page_count(self) -> nat {
        if self.size == 0 {
            0
        } else {
            (page_of((self.start + self.size - 1) as u64) - page_of(self.start) + 1) as nat
        }
    }

    /// The span that the kernel uses.
    pub fn kernel() -> (span: Self)
        ensures
            span.start == HEAP_START,
            span.size == HEAP_SIZE,
            span.fits(),
    {
        HeapSpan { start: HEAP_START, size: HEAP_SIZE }
    }

    /// Tells whether the span ends inside the address space.
    pub fn check(&self) -> (fit: bool)
        ensures
            fit == self.fits(),
    {
        self.size <= u64::MAX - self.start
    }

    /// Whether the `len` bytes from `ptr` lie inside the span.
    pub fn holds(&self, ptr: u64, len: usize) -> (inside: bool)
        ensures
            inside == (self.start <= ptr && ptr + len <= self.start + self.size),
    {
        let len64 = len as u64;
        if ptr < self.start {
            return false;
        }
        let skipped = ptr - self.start;
        skipped <= self.size && len64 <= self.size - skipped
    }
}

/// Backs `count` pages from `page` on: each takes the top free frame and is
/// mapped to it present and writable. Stops at the first page for which no
/// frame is left (`OutOfPhysicalFrames`) or the mapping fails (`MappingFailed`).
pub open spec fn back_pages_spec(
    space: SpaceView,
    frames: Seq<u64>,
    page: u64,
    count: nat,
) -> MapOutcome
    decreases count,
{
    if count == 0 {
        MapOutcome { space, frames, result: Ok(()) }
    } else if frames.len() == 0 {
        MapOutcome { space, frames, result: Err(MemoryError::OutOfPhysicalFrames) }
    } else {
        let out = map_page_spec(
            space,
            frames.drop_last(),
            page,
            Mapping { frame: frames.last(), flags: HEAP_FLAGS },
        );
        if out.result.is_err() {
            out
        } else {
            back_pages_spec(out.space, out.frames, (page + 1) as u64, (count - 1) as nat)
        }
    }
}

/// Every page of `span` is mapped, present and writable.
pub open spec fn heap_covered(space: SpaceView, span: HeapSpan) -> bool {
    forall|p: u64|
        span.first_page() <= p < span.first_page() + span.page_count() ==> #[trigger] space.pages.contains_key(
            p,
        ) && space.pages[p].flags == HEAP_FLAGS
}

/// In an address space that covers `span`, every address of the span resolves.
pub proof fn lemma_covered_span_resolves(space: SpaceView, span: HeapSpan, addr: u64)
    requires
        heap_covered(space, span),
        span.fits(),
        span.contains(addr),
    ensures
        translate_spec(space, addr).is_some(),
{
    let p = page_of(addr);
    assert(span.first_page() <= p < span.first_page() + span.page_count());
}

/// What an address space covers, it still covers after any change that keeps
/// its pages.
pub proof fn lemma_cover_kept(before: SpaceView, after: SpaceView, span: HeapSpan)
    requires
        heap_covered(before, span),
        keeps_pages(before, after),
    ensures
        heap_covered(after, span),
{
    assert forall|p: u64|
        span.first_page() <= p < span.first_page() + span.page_count() implies #[trigger] after.pages.contains_key(
        p,
    ) && after.pages[p].flags == HEAP_FLAGS by {
        assert(before.pages.contains_key(p));
    }
}

/// Where backing succeeds, every page asked for is mapped afterwards, present
/// and writable; and whether or not it succeeds, every page that was mapped
/// before stays as it was.
pub proof fn lemma_backed_pages_mapped(space: SpaceView, frames: Seq<u64>, page: u64, count: nat)
    requires
        page + count <= u64::MAX + 1,
    ensures
        keeps_pages(space, back_pages_spec(space, frames, page, count).space),
        back_pages_spec(space, frames, page, count).result.is_ok() ==> forall|p: u64|
            page <= p < page + count ==> #[trigger] back_pages_spec(
                space,
                frames,
                page,
                count,
            ).space.pages.contains_key(p) && back_pages_spec(
                space,
                frames,
                page,
                count,
            ).space.pages[p].flags == HEAP_FLAGS,
    decreases count,
{
    if count > 0 && frames.len() > 0 {
        let mapping = Mapping { frame: frames.last(), flags: HEAP_FLAGS };
        let out = map_page_spec(space, frames.drop_last(), page, mapping);
        lemma_map_page_keeps(space, frames.drop_last(), page, mapping);
        if out.result.is_ok() {
            lemma_backed_pages_mapped(out.space, out.frames, (page + 1) as u64, (count - 1) as nat);
            let end = back_pages_spec(out.space, out.frames, (page + 1) as u64, (count - 1) as nat);
            assert(end == back_pages_spec(space, frames, page, count));
            assert(out.space.pages.contains_key(page));
            if end.result.is_ok() {
                assert forall|p: u64| page <= p < page + count implies #[trigger] end.space.pages.contains_key(
                    p,
                ) && end.space.pages[p].flags == HEAP_FLAGS by {
                    if p != page {
                        assert(page + 1 <= p < page + 1 + (count - 1));
                    }
                }
            }
        }
    }
}

/// Maps every page of `span` to a frame of its own, present and writable.
///
/// On success every address of the span resolves. On failure the pages backed
/// so far stay mapped and the frames taken stay taken.
pub fn init(space: &mut AddressSpace, frames: &mut PageFrameAllocator, span: HeapSpan) -> (res:
    Result<(), MemoryError>)
    requires
        old(space).wf(),
        old(frames).wf(),
        span.fits(),
    ensures
        final(space).wf(),
        final(frames).wf(),
        final(space).offset() == old(space).offset(),
        final(space).root() == old(space).root(),
        ({
            let out = back_pages_spec(
                old(space)@,
                old(frames).free_frames(),
                span.first_page(),
                span.page_count(),
            );
            &&& final(space)@ == out.space
            &&& final(frames).free_frames() == out.frames
            &&& res == out.result
        }),
        res.is_ok() ==> heap_covered(final(space)@, span),
        keeps_pages(old(space)@, final(space)@),
{
    if span.size == 0 {
        return Ok(());
    }
    let first: u64 = span.start / 4096;
    let last: u64 = (span.start + span.size - 1) / 4096;
    let mut page: u64 = first;
    let mut left: u64 = last - first + 1;
    proof {
        lemma_backed_pages_mapped(
            old(space)@,
            old(frames).free_frames(),
            span.first_page(),
            span.page_count(),
        );
    }
    while left > 0
        invariant
            space.wf(),
            frames.wf(),
            space.offset() == old(space).offset(),
            space.root() == old(space).root(),
            left > 0 ==> page + left == last + 1,
            keeps_pages(
                old(space)@,
                back_pages_spec(
                    old(space)@,
                    old(frames).free_frames(),
                    span.first_page(),
                    span.page_count(),
                ).space,
            ),
            back_pages_spec(
                old(space)@,
                old(frames).free_frames(),
                span.first_page(),
                span.page_count(),
            ).result.is_ok() ==> heap_covered(
                back_pages_spec(
                    old(space)@,
                    old(frames).free_frames(),
                    span.first_page(),
                    span.page_count(),
                ).space,
                span,
            ),
            back_pages_spec(space@, frames.free_frames(), page, left as nat) == back_pages_spec(
                old(space)@,
                old(frames).free_frames(),
                span.first_page(),
                span.page_count(),
            ),
        decreases left,
    {
        let ghost space_before = space@;
        let ghost frames_before = frames.free_frames();
        let frame = match frames.allocate_frame() {
            Some(frame) => frame,
            None => {
                return Err(MemoryError::OutOfPhysicalFrames);
            },
        };
        match space.map_to(page, frame, HEAP_FLAGS, frames) {
            Ok(()) => {},
            Err(e) => {
                return Err(e);
            },
        }
        proof {
            let out = map_page_spec(
                space_before,
                frames_before.drop_last(),
                page,
                Mapping { frame: frames_before.last(), flags: HEAP_FLAGS },
            );
            assert(out.space == space@ && out.frames == frames.free_frames());
            assert(back_pages_spec(space_before, frames_before, page, left as nat)
                == back_pages_spec(space@, frames.free_frames(), (page + 1) as u64, (left - 1) as nat));
        }
        left -= 1;
        if left > 0 {
            page += 1;
        }
    }
    Ok(())
}

/// Size and alignment of a block, as plain values.
#[derive(Debug, Clone, Copy, PartialEq, Eq, Structural)]
pub struct Layout {
    /// Size of the block in bytes.
    pub size: usize,
    /// Alignment of the block in bytes.
    pub align: usize,
}

/// One of the four heap primitives, with its arguments.
#[derive(Debug, Clone, Copy, PartialEq, Eq, Structural)]
pub enum HeapRequest {
    /// Hand out a block.
    Alloc { layout: Layout },
    /// Hand out a block filled with zeroes.
    AllocZeroed { layout: Layout },
    /// Take back the block at `ptr`, which was handed out with `layout`.
    Dealloc { ptr: u64, layout: Layout },
    /// Resize the block at `ptr`, which was handed out with `layout`, to `new_size` bytes.
    Realloc { ptr: u64, layout: Layout, new_size: usize },
}

/// How far a request has come.
#[derive(Debug, Clone, Copy, PartialEq, Eq, Structural)]
pub enum Phase {
    /// Nothing was asked of the arena yet.
    Begin,
    /// The arena was asked for a block.
    Allocated,
    /// The block at `ptr` was filled with zeroes.
    Zeroed { ptr: u64 },
    /// The arena was asked to extend the block where it lies.
    Grown,
    /// The old contents were copied to the block at `to`.
    Copied { to: u64 },
    /// The old block was given back; the request ends with `ptr`.
    Freed { ptr: u64 },
    /// The arena was asked to release the tail of the block.
    Shrunk,
}

/// One thing asked of the arena or of the memory behind it.
#[derive(Debug, Clone, Copy, PartialEq, Eq, Structural)]
pub enum ArenaCall {
    /// A new block; the arena answers with its address, or null.
    Malloc { layout: Layout },
    /// The block at `ptr` goes back to the arena.
    Free { ptr: u64, layout: Layout },
    /// The block at `ptr` grows to `new_size` bytes where it lies; the arena
    /// answers with its address, or null where the space behind it is taken.
    GrowInPlace { ptr: u64, layout: Layout, new_size: usize },
    /// The block at `ptr` keeps its first `new_size` bytes and releases the rest.
    Shrink { ptr: u64, layout: Layout, new_size: usize },
    /// The `len` bytes at `ptr` are set to zero.
    Zero { ptr: u64, len: usize },
    /// The `len` bytes at `from` are copied to `to`; the two do not overlap.
    Copy { from: u64, to: u64, len: usize },
}

/// What a request does next.
#[derive(Debug, Clone, Copy, PartialEq, Eq, Structural)]
pub enum HeapStep {
    /// Make `call`, then go on from `next` with the arena's answer.
    Call { call: ArenaCall, next: Phase },
    /// The request is over and hands `ptr` to its caller: null on failure,
    /// and always null for a deallocation, which hands nothing back.
    Return { ptr: u64 },
}

/// The next step of `request` in `phase`, given the arena's answer `reply` to
/// the call made last. The answer is an address, or null where a `Malloc` or a
/// `GrowInPlace` failed; after any other call it is not looked at.
///
/// A block is zeroed only once it is known not to be null. Growing first
/// tries to extend in place; failing that it asks for a new block, copies the
/// old size, frees the old block and hands out the new one, and where no new
/// block can be had it ends with null and the old block untouched. Shrinking
/// and a resize to the same size end with the pointer they were given.
pub open spec fn step_spec(request: HeapRequest, phase: Phase, reply: u64) -> HeapStep {
    match (request, phase) {
        (HeapRequest::Alloc { layout }, Phase::Begin) => HeapStep::Call {
            call: ArenaCall::Malloc { layout },
            next: Phase::Allocated,
        },
        (HeapRequest::Alloc { .. }, Phase::Allocated) => HeapStep::Return { ptr: reply },
        (HeapRequest::AllocZeroed { layout }, Phase::Begin) => HeapStep::Call {
            call: ArenaCall::Malloc { layout },
            next: Phase::Allocated,
        },
        (HeapRequest::AllocZeroed { layout }, Phase::Allocated) => if reply == NULL {
            HeapStep::Return { ptr: NULL }
        } else {
            HeapStep::Call {
                call: ArenaCall::Zero { ptr: reply, len: layout.size },
                next: Phase::Zeroed { ptr: reply },
            }
        },
        (HeapRequest::AllocZeroed { .. }, Phase::Zeroed { ptr }) => HeapStep::Return { ptr },
        (HeapRequest::Dealloc { ptr, layout }, Phase::Begin) => HeapStep::Call {
            call: ArenaCall::Free { ptr, layout },
            next: Phase::Freed { ptr: NULL },
        },
        (HeapRequest::Realloc { ptr, layout, new_size }, Phase::Begin) => if new_size
            > layout.size {
            HeapStep::Call {
                call: ArenaCall::GrowInPlace { ptr, layout, new_size },
                next: Phase::Grown,
            }
        } else if new_size < layout.size {
            HeapStep::Call { call: ArenaCall::Shrink { ptr, layout, new_size }, next: Phase::Shrunk }
        } else {
            HeapStep::Return { ptr }
        },
        (HeapRequest::Realloc { layout, new_size, .. }, Phase::Grown) => if reply != NULL {
            HeapStep::Return { ptr: reply }
        } else {
            HeapStep::Call {
                call: ArenaCall::Malloc { layout: Layout { size: new_size, align: layout.align } },
                next: Phase::Allocated,
            }
        },
        (HeapRequest::Realloc { ptr, layout, .. }, Phase::Allocated) => if reply == NULL {
            HeapStep::Return { ptr: NULL }
        } else {
            HeapStep::Call {
                call: ArenaCall::Copy { from: ptr, to: reply, len: layout.size },
                next: Phase::Copied { to: reply },
            }
        },
        (HeapRequest::Realloc { ptr, layout, .. }, Phase::Copied { to }) => HeapStep::Call {
            call: ArenaCall::Free { ptr, layout },
            next: Phase::Freed { ptr: to },
        },
        (HeapRequest::Realloc { ptr, .. }, Phase::Shrunk) => HeapStep::Return { ptr },
        (_, Phase::Freed { ptr }) => HeapStep::Return { ptr },
        _ => HeapStep::Return { ptr: NULL },
    }
}

/// The arena's out-of-memory hook: it claims no further memory and lets the
/// request fail, whatever was asked for.
pub fn handle_oom(layout: Layout) -> (res: Result<(), MemoryError>)
    ensures
        res == Err::<(), MemoryError>(MemoryError::OutOfHeapMemory),
{
    Err(MemoryError::OutOfHeapMemory)
}

/// Decides what `request` does next; see `step_spec`.
pub fn step(request: HeapRequest, phase: Phase, reply: u64) -> (next: HeapStep)
    ensures
        next == step_spec(request, phase, reply),
{
    match phase {
        Phase::Freed { ptr } => HeapStep::Return { ptr },
        Phase::Begin => match request {
            HeapRequest::Alloc { layout } => allocate(layout),
            HeapRequest::AllocZeroed { layout } => alloc_zeroed(layout),
            HeapRequest::Dealloc { ptr, layout } => dealloc(ptr, layout),
            HeapRequest::Realloc { ptr, layout, new_size } => realloc(ptr, layout, new_size),
        },
        Phase::Allocated => match request {
            HeapRequest::Alloc { .. } => HeapStep::Return { ptr: reply },
            HeapRequest::AllocZeroed { layout } => {
                if reply != NULL {
                    HeapStep::Call {
                        call: ArenaCall::Zero { ptr: reply, len: layout.size },
                        next: Phase::Zeroed { ptr: reply },
                    }
                } else {
                    HeapStep::Return { ptr: NULL }
                }
            },
            HeapRequest::Realloc { ptr, layout, .. } => {
                if reply == NULL {
                    HeapStep::Return { ptr: NULL }
                } else {
                    HeapStep::Call {
                        call: ArenaCall::Copy { from: ptr, to: reply, len: layout.size },
                        next: Phase::Copied { to: reply },
                    }
                }
            },
            HeapRequest::Dealloc { .. } => HeapStep::Return { ptr: NULL },
        },
        Phase::Zeroed { ptr } => match request {
            HeapRequest::AllocZeroed { .. } => HeapStep::Return { ptr },
            _ => HeapStep::Return { ptr: NULL },
        },
        Phase::Grown => match request {
            HeapRequest::Realloc { layout, new_size, .. } => {
                if reply != NULL {
                    HeapStep::Return { ptr: reply }
                } else {
                    let new_layout = Layout { size: new_size, align: layout.align };
                    HeapStep::Call {
                        call: ArenaCall::Malloc { layout: new_layout },
                        next: Phase::Allocated,
                    }
                }
            },
            _ => HeapStep::Return { ptr: NULL },
        },
        Phase::Copied { to } => match request {
            HeapRequest::Realloc { ptr, layout, .. } => HeapStep::Call {
                call: ArenaCall::Free { ptr, layout },
                next: Phase::Freed { ptr: to },
            },
            _ => HeapStep::Return { ptr: NULL },
        },
        Phase::Shrunk => match request {
            HeapRequest::Realloc { ptr, .. } => HeapStep::Return { ptr },
            _ => HeapStep::Return { ptr: NULL },
        },
    }
}

/// The first step of an allocation: ask the arena for a block.
pub fn allocate(layout: Layout) -> (first: HeapStep)
    ensures
        first == step_spec((HeapRequest::Alloc { layout }), Phase::Begin, NULL),
{
    HeapStep::Call { call: ArenaCall::Malloc { layout }, next: Phase::Allocated }
}

/// The first step of a zeroed allocation: ask the arena for a block.
pub fn alloc_zeroed(layout: Layout) -> (first: HeapStep)
    ensures
        first == step_spec((HeapRequest::AllocZeroed { layout }), Phase::Begin, NULL),
{
    HeapStep::Call { call: ArenaCall::Malloc { layout }, next: Phase::Allocated }
}

/// The first step of a deallocation: give the block back.
pub fn dealloc(ptr: u64, layout: Layout) -> (first: HeapStep)
    ensures
        first == step_spec((HeapRequest::Dealloc { ptr, layout }), Phase::Begin, NULL),
{
    HeapStep::Call { call: ArenaCall::Free { ptr, layout }, next: Phase::Freed { ptr: NULL } }
}

/// The first step of a reallocation: grow in place, shrink, or nothing to do.
pub fn realloc(ptr: u64, layout: Layout, new_size: usize) -> (first: HeapStep)
    ensures
        first == step_spec((HeapRequest::Realloc { ptr, layout, new_size }), Phase::Begin, NULL),
{
    if new_size > layout.size {
        HeapStep::Call { call: ArenaCall::GrowInPlace { ptr, layout, new_size }, next: Phase::Grown }
    } else if new_size < layout.size {
        HeapStep::Call { call: ArenaCall::Shrink { ptr, layout, new_size }, next: Phase::Shrunk }
    } else {
        HeapStep::Return { ptr }
    }
}

/// Reallocating to a strictly smaller size asks the arena to release the tail
/// and ends with the pointer it was given, whatever the arena answers; a
/// resize to the same size ends with it at once.
pub proof fn lemma_realloc_shrink_keeps_pointer(
    ptr: u64,
    layout: Layout,
    new_size: usize,
    reply: u64,
)
    requires
        new_size <= layout.size,
    ensures
        new_size < layout.size ==> step_spec(
            (HeapRequest::Realloc { ptr, layout, new_size }),
            Phase::Begin,
            NULL,
        ) == (HeapStep::Call {
            call: ArenaCall::Shrink { ptr, layout, new_size },
            next: Phase::Shrunk,
        }),
        new_size < layout.size ==> step_spec(
            (HeapRequest::Realloc { ptr, layout, new_size }),
            Phase::Shrunk,
            reply,
        ) == (HeapStep::Return { ptr }),
        new_size == layout.size ==> step_spec(
            (HeapRequest::Realloc { ptr, layout, new_size }),
            Phase::Begin,
            NULL,
        ) == (HeapStep::Return { ptr }),
{
}

/// Exhaustion is handed on, never acted on: where the arena answers a request
/// for a block with null, the allocation, the zeroed allocation and the
/// relocating reallocation each end with null at once, with no further call,
/// so that nothing is zeroed or copied and the old block is not freed.
pub proof fn lemma_exhaustion_returns_null(ptr: u64, layout: Layout, new_size: usize)
    ensures
        step_spec((HeapRequest::Alloc { layout }), Phase::Allocated, NULL) == (HeapStep::Return {
            ptr: NULL,
        }),
        step_spec((HeapRequest::AllocZeroed { layout }), Phase::Allocated, NULL)
            == (HeapStep::Return { ptr: NULL }),
        step_spec((HeapRequest::Realloc { ptr, layout, new_size }), Phase::Allocated, NULL)
            == (HeapStep::Return { ptr: NULL }),
{
}

/// A reallocation that grows keeps the old contents: extended in place, the
/// block stays where it is and nothing is copied; relocated to `to`, the
/// whole old size is copied from the old block to the new one before the old
/// block is freed, and the request ends with the new block.
pub proof fn lemma_realloc_grow_keeps_prefix(
    ptr: u64,
    layout: Layout,
    new_size: usize,
    grown: u64,
    to: u64,
    reply: u64,
)
    requires
        new_size > layout.size,
        grown != NULL,
        to != NULL,
    ensures
        step_spec((HeapRequest::Realloc { ptr, layout, new_size }), Phase::Begin, NULL)
            == (HeapStep::Call {
            call: ArenaCall::GrowInPlace { ptr, layout, new_size },
            next: Phase::Grown,
        }),
        step_spec((HeapRequest::Realloc { ptr, layout, new_size }), Phase::Grown, grown)
            == (HeapStep::Return { ptr: grown }),
        step_spec((HeapRequest::Realloc { ptr, layout, new_size }), Phase::Grown, NULL)
            == (HeapStep::Call {
            call: ArenaCall::Malloc { layout: Layout { size: new_size, align: layout.align } },
            next: Phase::Allocated,
        }),
        step_spec((HeapRequest::Realloc { ptr, layout, new_size }), Phase::Allocated, to)
            == (HeapStep::Call {
            call: ArenaCall::Copy { from: ptr, to, len: layout.size },
            next: Phase::Copied { to },
        }),
        step_spec((HeapRequest::Realloc { ptr, layout, new_size }), (Phase::Copied { to }), reply)
            == (HeapStep::Call { call: ArenaCall::Free { ptr, layout }, next: Phase::Freed { ptr: to } }),
        step_spec((HeapRequest::Realloc { ptr, layout, new_size }), (Phase::Freed { ptr: to }), reply)
            == (HeapStep::Return { ptr: to }),
{
}

} // verus!
