use kernel_core::heap::{HeapInit, HeapStep, MapError, HEAP_PAGES, HEAP_SIZE, HEAP_START};
use kernel_core::memory::{BumpFrameAllocator, MemoryRegion};

fn regions(n: u64) -> [MemoryRegion; 1] {
    [MemoryRegion { start: 0x20_0000, end: 0x20_0000 + n * 4096, usable: true }]
}

#[test]
fn heap_constants() {
    assert_eq!(HEAP_START, 0x4444_4444_0000);
    assert_eq!(HEAP_SIZE, 100 * 1024);
    assert_eq!(HEAP_PAGES, 25);
}

#[test]
fn every_heap_page_is_mapped_before_ready() {
    let map = regions(100);
    let mut alloc = BumpFrameAllocator::init(&map);
    let mut init = HeapInit::new();
    let mut pages = Vec::new();
    let mut used = Vec::new();
    let mut last = Ok(());
    loop {
        match init.step(last, &mut alloc) {
            HeapStep::MapPage { page, frame } => {
                pages.push(page);
                used.push(frame);
                last = Ok(());
            }
            HeapStep::Ready { start, size } => {
                assert_eq!((start, size), (HEAP_START, HEAP_SIZE));
                break;
            }
            HeapStep::Abort(e) => panic!("unexpected abort {:?}", e),
        }
    }
    let expected: Vec<u64> = (0..25).map(|i| HEAP_START + i * 4096).collect();
    assert_eq!(pages, expected);
    let expected_frames: Vec<u64> = (0..25).map(|i| 0x20_0000 + i * 4096).collect();
    assert_eq!(used, expected_frames);
    // The allocator went on from where the heap left it.
    assert_eq!(alloc.allocate_frame(), Some(0x20_0000 + 25 * 4096));
}

#[test]
fn heap_aborts_when_frames_run_out() {
    let map = regions(3);
    let mut alloc = BumpFrameAllocator::init(&map);
    let mut init = HeapInit::new();
    let mut mapped = 0;
    let outcome = loop {
        match init.step(Ok(()), &mut alloc) {
            HeapStep::MapPage { .. } => mapped += 1,
            other => break other,
        }
    };
    assert_eq!(mapped, 3);
    assert_eq!(outcome, HeapStep::Abort(MapError::FrameAllocationFailed));
}

#[test]
fn heap_aborts_on_map_failure() {
    let map = regions(100);
    let mut alloc = BumpFrameAllocator::init(&map);
    let mut init = HeapInit::new();
    let first = init.step(Ok(()), &mut alloc);
    assert_eq!(first, HeapStep::MapPage { page: HEAP_START, frame: 0x20_0000 });
    let err = MapError::PageAlreadyMapped(0x9000);
    assert_eq!(init.step(Err(err), &mut alloc), HeapStep::Abort(err));
    // No frame was taken for the failed step.
    assert_eq!(alloc.allocate_frame(), Some(0x20_1000));
}

use kernel_core::heap::HeapArena;

#[test]
fn arena_hands_out_aligned_blocks_in_order() {
    let mut a = HeapArena::new(0x1000, 0x100);
    assert_eq!(a.allocate(3, 1), Some(0x1000));
    assert_eq!(a.allocate(8, 8), Some(0x1008));
    assert_eq!(a.allocate(16, 16), Some(0x1010));
}

#[test]
fn arena_refuses_block_past_end() {
    let mut a = HeapArena::new(0x1000, 0x20);
    assert_eq!(a.allocate(0x18, 8), Some(0x1000));
    assert_eq!(a.allocate(0x10, 8), None);
    // The refused request moved nothing: a block that fits still comes.
    assert_eq!(a.allocate(0x8, 8), Some(0x1018));
    assert_eq!(a.allocate(1, 1), None);
}

#[test]
fn arena_over_whole_heap_range() {
    let mut a = HeapArena::new(HEAP_START, HEAP_SIZE);
    assert_eq!(a.allocate(HEAP_SIZE, 4096), Some(HEAP_START));
    assert_eq!(a.allocate(1, 1), None);
}

#[test]
fn heap_stays_aborted_after_failure() {
    let map = regions(100);
    let mut alloc = BumpFrameAllocator::init(&map);
    let mut init = HeapInit::new();
    assert!(matches!(init.step(Ok(()), &mut alloc), HeapStep::MapPage { .. }));
    let err = MapError::ParentEntryHugePage;
    assert_eq!(init.step(Err(err), &mut alloc), HeapStep::Abort(err));
    for _ in 0..30 {
        assert_eq!(init.step(Ok(()), &mut alloc), HeapStep::Abort(err));
    }
    assert_eq!(alloc.allocate_frame(), Some(0x20_1000));
}
