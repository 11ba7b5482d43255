use openshmem_benchmark::BenchError;
use openshmem_benchmark::osm_slice::OsmSlice;
use openshmem_benchmark::osm_slice::chunk_count;
use openshmem_benchmark::osm_slice::all_gather_slot_base;
use openshmem_benchmark::osm_slice::chunked_collective_plan;

fn region(bytes: &[u8]) -> OsmSlice<u8> {
    OsmSlice::from_vec(bytes.to_vec())
}

#[test]
fn put_copies_all_bytes() {
    let src = region(&[1, 2, 3, 4]);
    let mut dst = region(&[0, 0, 0, 0]);
    src.put_to(&mut dst);
    assert_eq!(dst.data, vec![1, 2, 3, 4]);
}

#[test]
fn get_copies_all_bytes() {
    let src = region(&[9, 8, 7]);
    let mut dst = region(&[0, 0, 0]);
    dst.get_from(&src);
    assert_eq!(dst.data, vec![9, 8, 7]);
}

#[test]
fn put_prefix_leaves_tail_untouched() {
    let src = region(&[1, 2, 3, 4, 5]);
    let mut dst = region(&[9, 9, 9, 9, 9]);
    src.put_prefix_to(3, &mut dst);
    assert_eq!(dst.data, vec![1, 2, 3, 9, 9]);
}

#[test]
fn u32_codec_is_little_endian() {
    let mut cell = region(&[0, 0, 0, 0]);
    cell.write_u32_le(0x01020304);
    assert_eq!(cell.data, vec![4, 3, 2, 1]);
    assert_eq!(cell.read_u32_le(), 0x01020304);
}

#[test]
fn u64_codec_round_trips() {
    let mut cell = region(&[0; 8]);
    cell.write_u64_le(0x1122334455667788);
    assert_eq!(cell.data, vec![0x88, 0x77, 0x66, 0x55, 0x44, 0x33, 0x22, 0x11]);
    assert_eq!(cell.read_u64_le(), 0x1122334455667788);
}

#[test]
fn fetch_add_u32_returns_previous_and_wraps() {
    let mut cell = region(&[0xff, 0xff, 0xff, 0xff]);
    let prev = cell.fetch_add_u32(1).unwrap();
    assert_eq!(prev, 0xffff_ffff);
    assert_eq!(cell.read_u32_le(), 0);
}

#[test]
fn fetch_add_u64_adds() {
    let mut cell = region(&[0; 8]);
    cell.write_u64_le(40);
    let prev = cell.fetch_add_u64(2).unwrap();
    assert_eq!(prev, 40);
    assert_eq!(cell.read_u64_le(), 42);
}

#[test]
fn atomic_on_wrong_size_is_operand_error() {
    let mut cell = region(&[0, 0, 0]);
    assert_eq!(cell.fetch_add_u32(1), Err(BenchError::InvalidOperandSize));
    assert_eq!(cell.fetch_add_u64(1), Err(BenchError::InvalidOperandSize));
    assert_eq!(cell.compare_and_swap_u32(0, 1), Err(BenchError::InvalidOperandSize));
    assert_eq!(cell.compare_and_swap_u64(0, 1), Err(BenchError::InvalidOperandSize));
    assert_eq!(cell.data, vec![0, 0, 0]);
}

#[test]
fn compare_and_swap_u32_succeeds_once() {
    let mut cell = region(&[1, 0, 0, 0]);
    let first = cell.compare_and_swap_u32(1, 7).unwrap();
    assert_eq!(first, 1);
    assert_eq!(cell.read_u32_le(), 7);
    let second = cell.compare_and_swap_u32(1, 9).unwrap();
    assert_eq!(second, 7);
    assert_eq!(cell.read_u32_le(), 7);
}

#[test]
fn compare_and_swap_u64_fails_on_mismatch() {
    let mut cell = region(&[0; 8]);
    cell.write_u64_le(5);
    let prev = cell.compare_and_swap_u64(4, 9).unwrap();
    assert_eq!(prev, 5);
    assert_eq!(cell.read_u64_le(), 5);
}

#[test]
fn chunk_count_rounds_up() {
    assert_eq!(chunk_count(0), 0);
    assert_eq!(chunk_count(1), 1);
    assert_eq!(chunk_count(1024), 1);
    assert_eq!(chunk_count(1025), 2);
    assert_eq!(chunk_count(2500), 3);
}

#[test]
fn collective_plan_covers_every_peer_in_chunks() {
    let plan = chunked_collective_plan(2500, 1, 4, 0);
    assert_eq!(plan.len(), 9);
    let targets: Vec<usize> = plan.iter().map(|c| c.target_pe).collect();
    assert_eq!(targets, vec![0, 0, 0, 2, 2, 2, 3, 3, 3]);
    for q in 0..3 {
        assert_eq!((plan[q * 3].start, plan[q * 3].end), (0, 1024));
        assert_eq!((plan[q * 3 + 1].start, plan[q * 3 + 1].end), (1024, 2048));
        assert_eq!((plan[q * 3 + 2].start, plan[q * 3 + 2].end), (2048, 2500));
    }
}

#[test]
fn collective_plan_never_targets_self() {
    let plan = chunked_collective_plan(100, 0, 2, 0);
    assert_eq!(plan.len(), 1);
    assert_eq!(plan[0].target_pe, 1);
    assert_eq!((plan[0].start, plan[0].end), (0, 100));
    assert_eq!(plan[0].dest_start, 0);
}

#[test]
fn gather_chunks_land_in_the_senders_slot() {
    // Sender 2 of 4 owns the third quarter of a 8192-element destination.
    let base = all_gather_slot_base(8192, 2, 4);
    assert_eq!(base, 4096);
    let plan = chunked_collective_plan(2048, 2, 4, base);
    assert_eq!(plan.len(), 6);
    for chunk in &plan {
        assert_eq!(chunk.dest_start, 4096 + chunk.start);
    }
    assert_eq!(plan[0].dest_start, 4096);
    assert_eq!(plan[1].dest_start, 5120);
}
