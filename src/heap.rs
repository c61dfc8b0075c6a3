use vstd::prelude::*;
use vstd::arithmetic::div_mod::{lemma_mod_self_0, lemma_small_mod};
use crate::memory::{BumpFrameAllocator, FRAME_SIZE, usable_frames};

verus! {

/// Virtual address where the kernel heap begins.
pub const HEAP_START: u64 = 0x4444_4444_0000;

/// Length in bytes of the kernel heap.
pub const HEAP_SIZE: u64 = 100 * 1024;

/// Number of pages in the kernel heap.
pub const HEAP_PAGES: u64 = HEAP_SIZE / FRAME_SIZE;

/// Why a page could not be mapped.
#[derive(Clone, Copy, Debug, PartialEq, Eq, Structural)]
pub enum MapError {
    /// No frame was left, for the page itself or for a page table.
    FrameAllocationFailed,
    /// A table on the way to the page is a huge page.
    ParentEntryHugePage,
    /// The page is already mapped, to the frame given.
    PageAlreadyMapped(u64),
}

/// What heap construction asks for next.
#[derive(Clone, Copy, Debug, PartialEq, Eq, Structural)]
pub enum HeapStep {
    /// Map virtual page `page` to physical frame `frame`, present and
    /// writable, then call `step` again with the outcome.
    MapPage { page: u64, frame: u64 },
    /// Every page is mapped: `[start, start + size)` may now back the
    /// dynamic-allocation arena.
    Ready { start: u64, size: u64 },
    /// Construction failed and must not go on.
    Abort(MapError),
}

/// Start address of the `i`-th page of the heap.
pub open spec fn heap_page(i: int) -> int {
    HEAP_START + FRAME_SIZE * i
}

/// Builds the heap region: for every page of `[HEAP_START, HEAP_START +
/// HEAP_SIZE)` in turn it takes one frame from the allocator and asks for
/// the page to be mapped to it; the first failure ends construction for good.
pub struct HeapInit {
    requested: u64,
    failure: Option<MapError>,
}

impl HeapInit {
    /// How many pages have been handed out for mapping.
    pub closed spec fn requested(&self) -> nat {
        self.requested as nat
    }

    /// The error construction stopped on, if it stopped.
    pub closed spec fn failure(&self) -> Option<MapError> {
        self.failure
    }

    pub closed spec fn wf(&self) -> bool {
        self.requested <= HEAP_PAGES
    }

    pub fn new() -> (r: HeapInit)
        ensures
            r.wf(),
            r.requested() == 0,
            r.failure() is None,
    {
        HeapInit { requested: 0, failure: None }
    }

    /// Decides the next action from the outcome of the previous one (`Ok(())`
    /// on the first call, and after each page mapped).
    pub fn step(&mut self, last: Result<(), MapError>, frames: &mut BumpFrameAllocator<'_>) -> (r:
        HeapStep)
        requires
            old(self).wf(),
            old(frames).wf(),
        ensures
            final(self).wf(),
            final(frames).wf(),
            final(frames).map() == old(frames).map(),
            old(self).failure() matches Some(e) ==> {
                &&& r == HeapStep::Abort(e)
                &&& *final(self) == *old(self)
                &&& final(frames).next() == old(frames).next()
            },
            old(self).failure() is None && last is Err ==> {
                &&& r == HeapStep::Abort(last->Err_0)
                &&& final(self).failure() == Some(last->Err_0)
                &&& final(self).requested() == old(self).requested()
                &&& final(frames).next() == old(frames).next()
            },
            old(self).failure() is None && last is Ok && old(self).requested() == HEAP_PAGES ==> {
                &&& r == (HeapStep::Ready { start: HEAP_START, size: HEAP_SIZE })
                &&& *final(self) == *old(self)
                &&& final(frames).next() == old(frames).next()
            },
            old(self).failure() is None && last is Ok && old(self).requested() < HEAP_PAGES
                && old(frames).next() < usable_frames(
                old(frames).map(),
            ).len() ==> {
                &&& r == (HeapStep::MapPage {
                    page: heap_page(old(self).requested() as int) as u64,
                    frame: usable_frames(old(frames).map())[old(frames).next() as int],
                })
                &&& final(self).requested() == old(self).requested() + 1
                &&& final(self).failure() is None
                &&& final(frames).next() == old(frames).next() + 1
            },
            old(self).failure() is None && last is Ok && old(self).requested() < HEAP_PAGES
                && old(frames).next() >= usable_frames(
                old(frames).map(),
            ).len() ==> {
                &&& r == HeapStep::Abort(MapError::FrameAllocationFailed)
                &&& final(self).failure() == Some(MapError::FrameAllocationFailed)
                &&& final(self).requested() == old(self).requested()
                &&& final(frames).next() == old(frames).next()
            },
    {
        if let Some(e) = self.failure {
            return HeapStep::Abort(e);
        }
        match last {
            Err(e) => {
                self.failure = Some(e);
                HeapStep::Abort(e)
            },
            Ok(()) => {
                if self.requested == HEAP_PAGES {
                    HeapStep::Ready { start: HEAP_START, size: HEAP_SIZE }
                } else {
                    match frames.allocate_frame() {
                        None => {
                            self.failure = Some(MapError::FrameAllocationFailed);
                            HeapStep::Abort(MapError::FrameAllocationFailed)
                        },
                        Some(frame) => {
                            let page = HEAP_START + self.requested * FRAME_SIZE;
                            self.requested = self.requested + 1;
                            HeapStep::MapPage { page, frame }
                        },
                    }
                }
            },
        }
    }
}

/// First multiple of `align` at or above `n`.
pub open spec fn align_up(n: int, align: int) -> int {
    n + (align - n % align) % align
}

/// The dynamic-allocation arena over the mapped heap range: a bump pointer
/// that moves up through `[start, end)` and never moves back.
pub struct HeapArena {
    start: u64,
    end: u64,
    next: u64,
}

impl HeapArena {
    pub closed spec fn start(&self) -> nat {
        self.start as nat
    }

    pub closed spec fn end(&self) -> nat {
        self.end as nat
    }

    /// Lowest address not yet handed out.
    pub closed spec fn next(&self) -> nat {
        self.next as nat
    }

    pub closed spec fn wf(&self) -> bool {
        self.start <= self.next <= self.end
    }

    /// An arena over `[start, start + size)` with nothing handed out.
    pub fn new(start: u64, size: u64) -> (r: HeapArena)
        requires
            start + size <= u64::MAX,
        ensures
            r.wf(),
            r.start() == start,
            r.end() == start + size,
            r.next() == start,
    {
        HeapArena { start, end: start + size, next: start }
    }

    /// Hands out `size` bytes aligned to `align`, placed at the first such
    /// address at or above the bump pointer, or `None` when they do not fit
    /// below the end of the arena.
    pub fn allocate(&mut self, size: u64, align: u64) -> (r: Option<u64>)
        requires
            old(self).wf(),
            align > 0,
        ensures
            final(self).wf(),
            final(self).start() == old(self).start(),
            final(self).end() == old(self).end(),
            align_up(old(self).next() as int, align as int) + size <= old(self).end() ==> {
                &&& r == Some(align_up(old(self).next() as int, align as int) as u64)
                &&& final(self).next() == align_up(old(self).next() as int, align as int) + size
            },
            align_up(old(self).next() as int, align as int) + size > old(self).end() ==> {
                &&& r is None
                &&& final(self).next() == old(self).next()
            },
            r matches Some(a) ==> {
                &&& a % align == 0
                &&& old(self).next() <= a
                &&& a + size <= old(self).end()
            },
    {
        let rem = self.next % align;
        let pad: u64 = if rem == 0 {
            0
        } else {
            align - rem
        };
        proof {
            lemma_align_up(self.next as int, align as int);
            if rem == 0 {
                lemma_mod_self_0(align as int);
            } else {
                lemma_small_mod((align - rem) as nat, align as nat);
            }
        }
        if pad > self.end - self.next || size > self.end - self.next - pad {
            None
        } else {
            let at = self.next + pad;
            self.next = at + size;
            Some(at)
        }
    }
}

/// The first aligned address at or above `next` is aligned and not below `next`.
proof fn lemma_align_up(next: int, align: int)
    requires
        0 <= next,
        align > 0,
    ensures
        align_up(next, align) % align == 0,
        next <= align_up(next, align),
{
    let r = next % align;
    if r == 0 {
        lemma_mod_self_0(align);
    } else {
        lemma_small_mod((align - r) as nat, align as nat);
        assert((next + (align - r)) % align == 0) by (nonlinear_arith)
            requires
                r == next % align,
                align > 0,
                0 < r < align,
        ;
    }
}

/// The heap pages are distinct page boundaries, and together they cover
/// every address of `[HEAP_START, HEAP_START + HEAP_SIZE)`: once each of
/// them is mapped, the whole heap range is.
pub proof fn lemma_heap_pages_cover_range(addr: int)
    requires
        HEAP_START <= addr < HEAP_START + HEAP_SIZE,
    ensures
        HEAP_SIZE == FRAME_SIZE * HEAP_PAGES,
        forall|i: int| 0 <= i < HEAP_PAGES ==> #[trigger] heap_page(i) % (FRAME_SIZE as int) == 0,
        forall|i: int, j: int|
            0 <= i < j < HEAP_PAGES ==> #[trigger] heap_page(i) < #[trigger] heap_page(j),
        exists|i: int|
            0 <= i < HEAP_PAGES && #[trigger] heap_page(i) <= addr < heap_page(i) + FRAME_SIZE,
{
    let i = (addr - HEAP_START) / 4096;
    assert(heap_page(i) <= addr < heap_page(i) + FRAME_SIZE);
    assert forall|i: int| 0 <= i < HEAP_PAGES implies #[trigger] heap_page(i) % (FRAME_SIZE as int)
        == 0 by {
        assert((0x4444_4444_0000 + 4096 * i) % 4096 == 0) by (nonlinear_arith);
    }
}

} // verus!
