use vstd::prelude::*;

verus! {

/// Size in bytes of a physical frame and of a virtual page.
pub const FRAME_SIZE: u64 = 4096;

/// One entry of the boot memory map: the half-open physical range
/// `[start, end)` and whether the firmware left it free for the kernel.
#[derive(Clone, Copy, Debug, PartialEq, Eq, Structural)]
pub struct MemoryRegion {
    pub start: u64,
    pub end: u64,
    pub usable: bool,
}

/// Start of the frame that holds physical address `a`.
pub open spec fn align_down(a: int) -> int {
    a - a % (FRAME_SIZE as int)
}

/// Number of 4096-byte steps from `start` that stay below `end`, for a
/// usable region; zero for any other region.
pub open spec fn frame_count(r: MemoryRegion) -> nat {
    if r.usable && r.start < r.end {
        ((r.end - r.start + (FRAME_SIZE - 1)) / (FRAME_SIZE as int)) as nat
    } else {
        0
    }
}

/// The frames drawn from one region: the frame that holds each address
/// `start`, `start + 4096`, ... below `end`.
pub open spec fn region_frames(r: MemoryRegion) -> Seq<u64> {
    Seq::new(frame_count(r), |k: int| align_down(r.start + FRAME_SIZE * k) as u64)
}

/// The frames of every usable region, region after region, in map order.
pub open spec fn usable_frames(map: Seq<MemoryRegion>) -> Seq<u64>
    decreases map.len(),
{
    if map.len() == 0 {
        Seq::empty()
    } else {
        region_frames(map[0]) + usable_frames(map.drop_first())
    }
}

/// A memory map as the boot loader hands it over: usable regions start on a
/// frame boundary and no two usable regions overlap.
pub open spec fn map_valid(map: Seq<MemoryRegion>) -> bool {
    &&& forall|i: int| 0 <= i < map.len() && #[trigger] map[i].usable ==> map[i].start % FRAME_SIZE == 0
    &&& forall|i: int, j: int|
        0 <= i < j < map.len() && #[trigger] map[i].usable && #[trigger] map[j].usable ==> map[i].end
            <= map[j].start || map[j].end <= map[i].start
}

/// Physical address `f` is a frame boundary inside a usable region of `map`.
pub open spec fn in_usable_region(map: Seq<MemoryRegion>, f: u64) -> bool {
    &&& f % FRAME_SIZE == 0
    &&& exists|i: int|
        0 <= i < map.len() && #[trigger] map[i].usable && map[i].start <= f && f < map[i].end
}

/// `usable_frames` distributes over concatenation of maps.
proof fn lemma_usable_frames_append(a: Seq<MemoryRegion>, b: Seq<MemoryRegion>)
    ensures
        usable_frames(a + b) == usable_frames(a) + usable_frames(b),
    decreases a.len(),
{
    if a.len() == 0 {
        assert(a + b =~= b);
        assert(usable_frames(a) + usable_frames(b) =~= usable_frames(b));
    } else {
        assert((a + b).drop_first() =~= a.drop_first() + b);
        lemma_usable_frames_append(a.drop_first(), b);
        assert(usable_frames(a + b) =~= usable_frames(a) + usable_frames(b));
    }
}

/// Splits the frame sequence at region `i`: the frames of the regions before
/// it, then its own, then those after it.
proof fn lemma_usable_frames_split(map: Seq<MemoryRegion>, i: int)
    requires
        0 <= i < map.len(),
    ensures
        usable_frames(map) == usable_frames(map.take(i)) + region_frames(map[i])
            + usable_frames(map.skip(i + 1)),
        usable_frames(map.take(i + 1)) == usable_frames(map.take(i)) + region_frames(map[i]),
{
    assert(map =~= map.take(i) + map.skip(i));
    lemma_usable_frames_append(map.take(i), map.skip(i));
    assert(map.skip(i).drop_first() =~= map.skip(i + 1));
    assert(usable_frames(map.skip(i)) == region_frames(map[i]) + usable_frames(map.skip(i + 1)));
    assert(map.take(i + 1) =~= map.take(i) + seq![map[i]]);
    lemma_usable_frames_append(map.take(i), seq![map[i]]);
    let one = seq![map[i]];
    assert(one.drop_first() =~= Seq::<MemoryRegion>::empty());
    assert(usable_frames(one.drop_first()) =~= Seq::<u64>::empty());
    assert(usable_frames(one) == region_frames(one[0]) + usable_frames(one.drop_first()));
    assert(usable_frames(one) =~= region_frames(map[i]));
    assert(usable_frames(map) =~= usable_frames(map.take(i)) + region_frames(map[i])
        + usable_frames(map.skip(i + 1)));
}

/// Each frame of a region is a frame boundary inside that region, and the
/// frames of a region are pairwise distinct.
proof fn lemma_region_frames(r: MemoryRegion)
    requires
        r.usable ==> r.start % FRAME_SIZE == 0,
    ensures
        forall|k: int|
            0 <= k < frame_count(r) ==> {
                let f = #[trigger] region_frames(r)[k];
                &&& r.usable
                &&& f % FRAME_SIZE == 0
                &&& r.start <= f < r.end
                &&& f == r.start + FRAME_SIZE * k
            },
        region_frames(r).no_duplicates(),
{
    assert forall|k: int| 0 <= k < frame_count(r) implies {
        let f = #[trigger] region_frames(r)[k];
        &&& r.usable
        &&& f % FRAME_SIZE == 0
        &&& r.start <= f < r.end
        &&& f == r.start + FRAME_SIZE * k
    } by {
        let s = r.start as int;
        let e = r.end as int;
        assert((s + 4096 * k) % 4096 == 0) by (nonlinear_arith)
            requires
                s % 4096 == 0,
        ;
        assert(s + 4096 * k < e) by (nonlinear_arith)
            requires
                0 <= k < (e - s + 4095) / 4096,
                s < e,
        ;
        assert(s <= s + 4096 * k) by (nonlinear_arith)
            requires
                0 <= k,
        ;
    }
    assert forall|a: int, b: int|
        0 <= a < region_frames(r).len() && 0 <= b < region_frames(r).len() && a != b implies
        region_frames(r)[a] != region_frames(r)[b] by {
        assert(region_frames(r)[a] == r.start + FRAME_SIZE * a);
        assert(region_frames(r)[b] == r.start + FRAME_SIZE * b);
    }
}

/// Every frame drawn from a valid map is a distinct frame boundary inside a
/// usable region of that map.
pub proof fn lemma_usable_frames_sound(map: Seq<MemoryRegion>)
    requires
        map_valid(map),
    ensures
        usable_frames(map).no_duplicates(),
        forall|k: int|
            0 <= k < usable_frames(map).len() ==> in_usable_region(
                map,
                #[trigger] usable_frames(map)[k],
            ),
    decreases map.len(),
{
    if map.len() > 0 {
        let r = map[0];
        let rest = map.drop_first();
        assert(map_valid(rest)) by {
            assert forall|i: int| 0 <= i < rest.len() && #[trigger] rest[i].usable implies rest[i].start
                % FRAME_SIZE == 0 by {
                assert(rest[i] == map[i + 1]);
            }
            assert forall|i: int, j: int|
                0 <= i < j < rest.len() && #[trigger] rest[i].usable && #[trigger] rest[j].usable implies rest[i].end
                <= rest[j].start || rest[j].end <= rest[i].start by {
                assert(rest[i] == map[i + 1]);
                assert(rest[j] == map[j + 1]);
            }
        }
        assert(r.usable ==> r.start % FRAME_SIZE == 0) by {
            if r.usable {
                assert(map[0].usable);
            }
        }
        lemma_usable_frames_sound(rest);
        lemma_region_frames(r);
        let head = region_frames(r);
        let tail = usable_frames(rest);
        let all = usable_frames(map);
        assert(all == head + tail);
        assert forall|k: int| 0 <= k < all.len() implies in_usable_region(map, #[trigger] all[k]) by {
            if k < head.len() {
                assert(all[k] == head[k]);
                assert(map[0].usable && map[0].start <= all[k] && all[k] < map[0].end);
            } else {
                assert(all[k] == tail[k - head.len()]);
                assert(in_usable_region(rest, tail[k - head.len()]));
                let i = choose|i: int|
                    0 <= i < rest.len() && #[trigger] rest[i].usable && rest[i].start <= all[k]
                        && all[k] < rest[i].end;
                assert(map[i + 1] == rest[i]);
            }
        }
        assert forall|a: int, b: int| 0 <= a < all.len() && 0 <= b < all.len() && a != b implies all[a]
            != all[b] by {
            if a < head.len() && b < head.len() {
                assert(all[a] == head[a] && all[b] == head[b]);
            } else if a >= head.len() && b >= head.len() {
                assert(all[a] == tail[a - head.len()] && all[b] == tail[b - head.len()]);
            } else {
                let (h, t) = if a < head.len() { (a, b) } else { (b, a) };
                assert(all[h] == head[h]);
                assert(all[t] == tail[t - head.len()]);
                assert(in_usable_region(rest, tail[t - head.len()]));
                let i = choose|i: int|
                    0 <= i < rest.len() && #[trigger] rest[i].usable && rest[i].start <= all[t]
                        && all[t] < rest[i].end;
                assert(map[i + 1] == rest[i]);
                assert(map[0].usable && map[i + 1].usable);
                assert(r.start <= all[h] < r.end);
            }
        }
    }
}

/// The physical frame allocator: hands out the frames of the usable regions
/// of the boot memory map one by one, never the same one twice.
///
/// The cursor is the pair (`region`, `offset`): the region being drawn from
/// and how many of its frames are already handed out.
pub struct BumpFrameAllocator<'a> {
    memory_map: &'a [MemoryRegion],
    region: usize,
    offset: u64,
}

/// Number of frames drawn from region `r`, computed.
fn region_frame_count(r: &MemoryRegion) -> (n: u64)
    ensures
        n == frame_count(*r),
{
    if r.usable && r.start < r.end {
        let len: u64 = r.end - r.start;
        len / FRAME_SIZE + if len % FRAME_SIZE == 0 { 0 } else { 1 }
    } else {
        0
    }
}

impl<'a> BumpFrameAllocator<'a> {
    /// The memory map the frames are drawn from.
    pub closed spec fn map(&self) -> Seq<MemoryRegion> {
        self.memory_map@
    }

    /// How many frames have been handed out so far.
    pub closed spec fn next(&self) -> nat {
        usable_frames(self.memory_map@.take(self.region as int)).len() + self.offset as nat
    }

    /// The frames handed out so far, in the order they were handed out.
    pub open spec fn handed_out(&self) -> Seq<u64> {
        usable_frames(self.map()).take(self.next() as int)
    }

    /// A well-formed cursor never runs past the end of the frame sequence.
    pub proof fn lemma_next_bounded(&self)
        requires
            self.wf(),
        ensures
            self.next() <= usable_frames(self.map()).len(),
    {
        if self.region < self.memory_map@.len() {
            lemma_usable_frames_split(self.memory_map@, self.region as int);
        } else {
            assert(self.memory_map@.take(self.region as int) =~= self.memory_map@);
        }
    }

    pub closed spec fn wf(&self) -> bool {
        &&& self.region <= self.memory_map@.len()
        &&& self.region < self.memory_map@.len() ==> self.offset <= frame_count(
            self.memory_map@[self.region as int],
        )
        &&& self.region == self.memory_map@.len() ==> self.offset == 0
    }

    /// An allocator over `memory_map` that has handed out nothing yet.
    pub fn init(memory_map: &'a [MemoryRegion]) -> (r: BumpFrameAllocator<'a>)
        ensures
            r.wf(),
            r.map() == memory_map@,
            r.next() == 0,
    {
        let r = BumpFrameAllocator { memory_map, region: 0, offset: 0 };
        assert(r.memory_map@.take(0) =~= Seq::<MemoryRegion>::empty());
        r
    }

    /// Hands out the next frame of the usable regions, or `None` once all of
    /// them are handed out.
    pub fn allocate_frame(&mut self) -> (r: Option<u64>)
        requires
            old(self).wf(),
        ensures
            final(self).wf(),
            final(self).map() == old(self).map(),
            old(self).next() < usable_frames(old(self).map()).len() ==> {
                &&& r == Some(usable_frames(old(self).map())[old(self).next() as int])
                &&& final(self).next() == old(self).next() + 1
            },
            old(self).next() >= usable_frames(old(self).map()).len() ==> {
                &&& r is None
                &&& final(self).next() == old(self).next()
            },
    {
        let ghost map = self.memory_map@;
        let ghost n = self.next();
        let len = self.memory_map.len();
        while self.region < len && self.offset >= region_frame_count(&self.memory_map[self.region])
            invariant
                self.memory_map@ == map,
                len == map.len(),
                self.wf(),
                self.next() == n,
            decreases len - self.region,
        {
            proof {
                lemma_usable_frames_split(map, self.region as int);
            }
            self.region = self.region + 1;
            self.offset = 0;
        }
        if self.region == len {
            proof {
                assert(map.take(len as int) =~= map);
            }
            None
        } else {
            let r = self.memory_map[self.region];
            let step: u64 = r.start + self.offset * FRAME_SIZE;
            proof {
                let k = self.offset as int;
                lemma_usable_frames_split(map, self.region as int);
                assert(k * 4096 + r.start < r.end) by (nonlinear_arith)
                    requires
                        0 <= k < (r.end - r.start + 4095) / 4096,
                        r.start < r.end,
                ;
            }
            let frame = step - step % FRAME_SIZE;
            self.offset = self.offset + 1;
            Some(frame)
        }
    }
}

/// Across the allocator's lifetime no frame is handed out twice, and each
/// frame handed out is a frame boundary inside a usable region of the map.
pub proof fn lemma_handed_out_frames_distinct(a: &BumpFrameAllocator<'_>)
    requires
        a.wf(),
        map_valid(a.map()),
    ensures
        a.handed_out().no_duplicates(),
        forall|k: int| 0 <= k < a.handed_out().len() ==> in_usable_region(a.map(), #[trigger] a.handed_out()[k]),
{
    lemma_usable_frames_sound(a.map());
    a.lemma_next_bounded();
    let all = usable_frames(a.map());
    let h = a.handed_out();
    assert forall|k: int| 0 <= k < h.len() implies in_usable_region(a.map(), #[trigger] h[k]) by {
        assert(h[k] == all[k]);
    }
    assert forall|i: int, j: int| 0 <= i < h.len() && 0 <= j < h.len() && i != j implies h[i] != h[j] by {
        assert(h[i] == all[i] && h[j] == all[j]);
    }
}

} // verus!
