use openshmem_benchmark::BenchError;
use openshmem_benchmark::osm_alloc::OsmMalloc;
use openshmem_benchmark::osm_scope::OsmScope;
use openshmem_benchmark::shalloc::ShMalloc;

#[test]
fn allocation_hands_out_offsets_in_request_order() {
    let mut heap = ShMalloc::new(100);
    assert_eq!(heap.allocate(40, 1), Ok(0));
    assert_eq!(heap.allocate(30, 1), Ok(40));
    assert_eq!(heap.allocate(30, 1), Ok(70));
}

#[test]
fn allocation_respects_the_requested_alignment() {
    let mut heap = ShMalloc::new(64);
    assert_eq!(heap.allocate(3, 1), Ok(0));
    // The next 8-aligned offset above 3 is 8.
    assert_eq!(heap.allocate(8, 8), Ok(8));
    assert_eq!(heap.allocate(1, 16), Ok(16));
    assert_eq!(heap.allocate(4, 4), Ok(20));
}

#[test]
fn alignment_padding_counts_against_the_region() {
    let mut heap = ShMalloc::new(16);
    assert_eq!(heap.allocate(9, 1), Ok(0));
    // An 8-aligned block of 8 bytes would need offsets 16..24.
    assert_eq!(heap.allocate(8, 8), Err(BenchError::AllocationFailed));
    assert_eq!(heap.allocate(7, 1), Ok(9));
}

#[test]
fn exhaustion_is_a_fatal_allocation_error() {
    let mut heap = ShMalloc::new(64);
    assert_eq!(heap.allocate(60, 1), Ok(0));
    assert_eq!(heap.allocate(5, 1), Err(BenchError::AllocationFailed));
    assert_eq!(heap.allocate(4, 1), Ok(60));
}

#[test]
fn identical_request_orders_give_identical_offsets_everywhere() {
    let mut first = ShMalloc::new(256);
    let mut second = ShMalloc::new(256);
    let requests = [(16usize, 1usize), (64, 8), (8, 4), (32, 16)];
    for &(size, align) in requests.iter() {
        assert_eq!(first.allocate(size, align), second.allocate(size, align));
    }
}

#[test]
fn deallocate_releases_a_live_block() {
    let mut heap = ShMalloc::new(100);
    heap.allocate(10, 1).unwrap();
    let b = heap.allocate(20, 1).unwrap();
    assert_eq!(heap.live.len(), 2);
    heap.deallocate(b);
    assert_eq!(heap.live.len(), 1);
    assert_eq!(heap.live[0], (0, 10));
}

#[test]
fn grow_relocates_and_preserves_bytes() {
    let mut heap = ShMalloc::new(64);
    let a = heap.allocate(8, 1).unwrap();
    for k in 0..8 {
        heap.mem[a + k] = (k as u8) + 1;
    }
    let b = heap.grow(a, 8, 16).unwrap();
    assert_eq!(b, 8);
    for k in 0..8 {
        assert_eq!(heap.mem[b + k], (k as u8) + 1);
    }
    assert_eq!(heap.live.len(), 1);
    assert_eq!(heap.live[0], (8, 16));
}

#[test]
fn grow_fails_without_room_and_changes_nothing() {
    let mut heap = ShMalloc::new(32);
    let a = heap.allocate(16, 1).unwrap();
    assert_eq!(heap.grow(a, 16, 20), Err(BenchError::AllocationFailed));
    assert_eq!(heap.live, vec![(0, 16)]);
    assert_eq!(heap.next, 16);
}

#[test]
fn capability_forwards_to_the_heap() {
    let scope = OsmScope::new(0, 2);
    let alloc = OsmMalloc::new(&scope);
    let mut heap = ShMalloc::new(128);
    assert_eq!(alloc.allocate(&mut heap, 100, 8), Ok(0));
    assert_eq!(alloc.grow(&mut heap, 0, 100, 200), Err(BenchError::AllocationFailed));
    alloc.deallocate(&mut heap, 0);
    assert_eq!(heap.live.len(), 0);
}

#[test]
fn the_scope_may_end_only_after_every_release() {
    let mut heap = ShMalloc::new(32);
    assert!(heap.can_finalize());
    let a = heap.allocate(8, 1).unwrap();
    assert!(!heap.can_finalize());
    heap.deallocate(a);
    assert!(heap.can_finalize());
}
