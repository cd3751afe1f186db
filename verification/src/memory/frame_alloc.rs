//! The physical frame allocator: a free list threaded through the free frames.

use vstd::prelude::*;
use crate::memory::{align_down, frame_base, FRAME_SIZE};

verus! {

/// The word a free frame holds when no frame follows it on the list.
///
/// It is not a multiple of the frame size, so no frame has it as its address.
pub const END_OF_LIST: u64 = 0xffff_ffff_ffff_ffff;

/// One entry of the boot memory map, as plain values.
#[derive(Debug, Clone, Copy, PartialEq, Eq, Structural)]
pub struct MemoryRegion {
    /// Physical address at which the region starts.
    pub base: u64,
    /// Length of the region in bytes.
    pub length: u64,
    /// Whether the firmware tagged the region as usable.
    pub usable: bool,
}

impl MemoryRegion {
    /// The region ends inside the 64-bit physical address space.
    pub open spec fn fits(self) -> bool {
        self.base + self.length <= u64::MAX
    }

    /// Number of whole frames the region yields: a trailing remainder is dropped.
    pub open spec fn frame_count(self) -> nat {
        if self.usable {
            (self.length / 4096) as nat
        } else {
            0
        }
    }

    /// The frames the region yields, in the order they are walked.
    pub open spec fn frames(self) -> Seq<u64> {
        Seq::new(self.frame_count(), |k: int| frame_base((self.base + k * 4096) as u64))
    }
}

/// The frames that a memory map yields: those of each region, in map order.
pub open spec fn map_frames(regions: Seq<MemoryRegion>) -> Seq<u64>
    decreases regions.len(),
{
    if regions.len() == 0 {
        Seq::empty()
    } else {
        map_frames(regions.drop_last()) + regions.last().frames()
    }
}

/// The bytes of a memory map that are tagged usable.
pub open spec fn usable_bytes(regions: Seq<MemoryRegion>) -> nat
    decreases regions.len(),
{
    if regions.len() == 0 {
        0
    } else {
        usable_bytes(regions.drop_last()) + if regions.last().usable {
            regions.last().length as nat
        } else {
            0
        }
    }
}

/// The usable bytes that fill no whole frame of their region.
pub open spec fn dropped_bytes(regions: Seq<MemoryRegion>) -> nat
    decreases regions.len(),
{
    if regions.len() == 0 {
        0
    } else {
        dropped_bytes(regions.drop_last()) + if regions.last().usable {
            (regions.last().length % 4096) as nat
        } else {
            0
        }
    }
}

/// Every usable region of the map ends inside the address space.
pub open spec fn regions_fit(regions: Seq<MemoryRegion>) -> bool {
    forall|i: int| 0 <= i < regions.len() && regions[i].usable ==> #[trigger] regions[i].fits()
}

/// What taking one frame hands out: the last frame of the list, if there is one.
pub open spec fn taken(frames: Seq<u64>) -> Option<u64> {
    if frames.len() == 0 {
        None
    } else {
        Some(frames.last())
    }
}

/// The list after one frame was asked for: an empty list stays empty.
pub open spec fn after_take(frames: Seq<u64>) -> Seq<u64> {
    if frames.len() == 0 {
        frames
    } else {
        frames.drop_last()
    }
}

/// The list after `n` frames were asked for, one after another.
pub open spec fn after_takes(frames: Seq<u64>, n: nat) -> Seq<u64>
    decreases n,
{
    if n == 0 {
        frames
    } else {
        after_takes(after_take(frames), (n - 1) as nat)
    }
}

/// A memory map yields one frame for every 4096 usable bytes that are not
/// dropped as the remainder of a region.
pub proof fn lemma_map_frames_len(regions: Seq<MemoryRegion>)
    ensures
        map_frames(regions).len() * 4096 + dropped_bytes(regions) == usable_bytes(regions),
    decreases regions.len(),
{
    if regions.len() > 0 {
        lemma_map_frames_len(regions.drop_last());
    }
}

/// Conservation at start-up: where the remainders that the regions drop add up
/// to less than one frame (one usable region, or lengths that are whole
/// frames), the map yields the usable bytes divided by 4096, rounded down.
pub proof fn lemma_free_count_after_init(regions: Seq<MemoryRegion>)
    requires
        dropped_bytes(regions) < 4096,
    ensures
        map_frames(regions).len() == usable_bytes(regions) / 4096,
{
    lemma_map_frames_len(regions);
}

/// Conservation while allocating: of a list of `frames.len()` frames, `n`
/// requests in a row all succeed and leave `frames.len() - n`, down to none;
/// the request after the last frame is refused.
pub proof fn lemma_free_count_after_takes(frames: Seq<u64>, n: nat)
    requires
        n <= frames.len(),
    ensures
        after_takes(frames, n).len() == frames.len() - n,
        after_takes(frames, n) == frames.take(frames.len() - n),
        n < frames.len() ==> taken(after_takes(frames, n)) == Some(frames[frames.len() - n - 1]),
        n == frames.len() ==> taken(after_takes(frames, n)).is_none(),
    decreases n,
{
    if n > 0 {
        lemma_free_count_after_takes(after_take(frames), (n - 1) as nat);
        assert(frames.drop_last().take(frames.len() - n) == frames.take(frames.len() - n));
    } else {
        assert(frames.take(frames.len() as int) == frames);
    }
}

/// Tells whether every usable region of the map ends inside the address space.
pub fn check_regions(regions: &Vec<MemoryRegion>) -> (fit: bool)
    ensures
        fit == regions_fit(regions@),
{
    let mut i: usize = 0;
    while i < regions.len()
        invariant
            0 <= i <= regions.len(),
            forall|j: int| 0 <= j < i && regions@[j].usable ==> #[trigger] regions@[j].fits(),
        decreases regions.len() - i,
    {
        let region = regions[i];
        if region.usable && region.length > u64::MAX - region.base {
            assert(!regions@[i as int].fits());
            return false;
        }
        i += 1;
    }
    true
}

/// Tracks the free physical frames as a last-in first-out list.
///
/// Each free frame holds one word: the address of the frame that was on top of
/// the list when it was pushed, or `END_OF_LIST`. `links` keeps those words in
/// push order and `head` names the top frame.
pub struct PageFrameAllocator {
    head: Option<u64>,
    free_count: usize,
    links: Vec<u64>,
}

impl PageFrameAllocator {
    /// The free frames, oldest first; the last one is handed out next.
    pub closed spec fn free_frames(&self) -> Seq<u64> {
        match self.head {
            Some(top) => self.links@.drop_first().push(top),
            None => Seq::empty(),
        }
    }

    /// The list is well linked and the count is the number of frames on it.
    pub closed spec fn wf(&self) -> bool {
        &&& self.links@.len() == self.free_count
        &&& self.head.is_some() <==> self.free_count > 0
        &&& self.free_count > 0 ==> self.links@[0] == END_OF_LIST
        &&& forall|i: int| 0 < i < self.links@.len() ==> #[trigger] self.links@[i] % 4096 == 0
        &&& self.head matches Some(top) ==> top % 4096 == 0
    }

    /// An allocator with no frames.
    pub fn new() -> (allocator: Self)
        ensures
            allocator.wf(),
            allocator.free_frames() == Seq::<u64>::empty(),
    {
        Self { head: None, free_count: 0, links: Vec::new() }
    }

    /// Pushes every whole frame of every usable region onto the free list, in map order.
    pub fn init(&mut self, regions: &Vec<MemoryRegion>)
        requires
            old(self).wf(),
            regions_fit(regions@),
        ensures
            final(self).wf(),
            final(self).free_frames() == old(self).free_frames() + map_frames(regions@),
    {
        let mut i: usize = 0;
        while i < regions.len()
            invariant
                0 <= i <= regions.len(),
                self.wf(),
                regions_fit(regions@),
                self.free_frames() == old(self).free_frames() + map_frames(regions@.take(i as int)),
            decreases regions.len() - i,
        {
            let region = regions[i];
            proof {
                assert(regions@.take(i as int + 1).drop_last() == regions@.take(i as int));
                assert(regions@.take(i as int + 1).last() == region);
            }
            if region.usable {
                assert(regions@[i as int].fits());
                let count: u64 = region.length / FRAME_SIZE;
                let ghost before = self.free_frames();
                let mut k: u64 = 0;
                while k < count
                    invariant
                        0 <= k <= count,
                        count == region.length / 4096,
                        region.usable,
                        region.fits(),
                        self.wf(),
                        self.free_frames() == before + region.frames().take(k as int),
                    decreases count - k,
                {
                    let frame = align_down(region.base + k * FRAME_SIZE);
                    self.push_frame(frame);
                    proof {
                        assert(region.frames().take(k as int + 1) == region.frames().take(
                            k as int,
                        ).push(frame));
                    }
                    k += 1;
                }
                proof {
                    assert(region.frames().take(count as int) == region.frames());
                }
            } else {
                assert(region.frames() == Seq::<u64>::empty());
            }
            i += 1;
        }
        proof {
            assert(regions@.take(regions.len() as int) == regions@);
        }
    }

    /// Puts `frame` on top of the free list: the frame takes the old head as
    /// its word and becomes the head.
    pub fn push_frame(&mut self, frame: u64)
        requires
            old(self).wf(),
            frame % 4096 == 0,
        ensures
            final(self).wf(),
            final(self).free_frames() == old(self).free_frames().push(frame),
    {
        let next_addr = match self.head {
            Some(f) => f,
            None => END_OF_LIST,
        };
        self.links.push(next_addr);
        self.head = Some(frame);
        self.free_count = self.links.len();
        proof {
            assert(self.free_frames() =~= old(self).free_frames().push(frame));
        }
    }

    /// Takes the top frame off the free list, or reports that the list is empty.
    pub fn allocate_frame(&mut self) -> (frame: Option<u64>)
        requires
            old(self).wf(),
        ensures
            final(self).wf(),
            frame == taken(old(self).free_frames()),
            final(self).free_frames() == after_take(old(self).free_frames()),
            frame.is_none() ==> *final(self) == *old(self),
            frame matches Some(base) ==> base % 4096 == 0,
    {
        let head = match self.head {
            Some(f) => f,
            None => {
                return None;
            },
        };
        let next_phys = match self.links.pop() {
            Some(word) => word,
            None => END_OF_LIST,
        };
        self.head = if next_phys == END_OF_LIST {
            None
        } else {
            Some(next_phys)
        };
        self.free_count = self.free_count.wrapping_sub(1);
        proof {
            assert(self.free_frames() =~= old(self).free_frames().drop_last());
        }
        Some(head)
    }

    /// Number of free frames remaining.
    pub fn free_count(&self) -> (count: usize)
        requires
            self.wf(),
        ensures
            count == self.free_frames().len(),
    {
        self.free_count
    }
}

} // verus!
