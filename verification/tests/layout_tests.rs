use openshmem_benchmark::BenchError;
use openshmem_benchmark::layout::Epoch;
use openshmem_benchmark::layout::RangeBenchmarkData;
use openshmem_benchmark::layout::WorkingSet;
use openshmem_benchmark::layout::validate_buffer;
use openshmem_benchmark::osm_scope::OsmScope;
use openshmem_benchmark::osm_vec::ShVec;

fn byte_buffer(scope: &OsmScope, bytes: &[u8]) -> ShVec<u8> {
    let mut buf = ShVec::new(scope);
    for &b in bytes {
        buf.push(b);
    }
    buf
}

#[test]
fn setup_data_fills_source_with_pattern() {
    let scope = OsmScope::new(0, 4);
    let data = RangeBenchmarkData::setup_data(&scope, 2, 3, 2);
    assert_eq!(data.num_working_set(), 2);
    assert_eq!(data.epoch_size(), 2);
    assert_eq!(data.data_size(), 3);
    for w in 0..2 {
        let epoch = &data.src_working_set.epoches[w];
        assert_eq!(epoch.len(), 2);
        for i in 0..2 {
            for j in 0..3 {
                let expected = ((i * 3 + j + 5) % 256) as u8;
                assert_eq!(epoch.data[i].at(j), expected);
            }
        }
    }
}

#[test]
fn setup_data_zero_fills_destination() {
    let scope = OsmScope::new(1, 2);
    let data = RangeBenchmarkData::setup_data(&scope, 3, 4, 2);
    for w in 0..2 {
        for i in 0..3 {
            for j in 0..4 {
                assert_eq!(data.dst_working_set.epoches[w].data[i].at(j), 0);
            }
        }
    }
}

#[test]
fn working_set_getters_read_first_epoch() {
    let scope = OsmScope::new(0, 2);
    let bufs = vec![byte_buffer(&scope, &[1, 2]), byte_buffer(&scope, &[3, 4])];
    let ws = WorkingSet::new(vec![Epoch::new(bufs)]);
    assert_eq!(ws.len(), 1);
    assert_eq!(ws.epoch_size(), 2);
    assert_eq!(ws.data_size(), 2);
}

#[test]
fn epoch_getters_read_first_buffer() {
    let scope = OsmScope::new(0, 2);
    let epoch = Epoch::new(vec![byte_buffer(&scope, &[7, 8, 9])]);
    assert_eq!(epoch.len(), 1);
    assert_eq!(epoch.data_size(), 3);
}

#[test]
fn validate_accepts_equal_buffers() {
    let scope = OsmScope::new(0, 2);
    let a = byte_buffer(&scope, &[1, 2, 3]);
    let b = byte_buffer(&scope, &[1, 2, 3]);
    assert!(validate_buffer(&a, &b).is_ok());
}

#[test]
fn validate_rejects_any_differing_byte() {
    let scope = OsmScope::new(0, 2);
    let a = byte_buffer(&scope, &[1, 2, 3]);
    let b = byte_buffer(&scope, &[1, 9, 3]);
    assert_eq!(validate_buffer(&a, &b), Err(BenchError::Mismatch));
}

#[test]
fn validate_rejects_length_mismatch() {
    let scope = OsmScope::new(0, 2);
    let a = byte_buffer(&scope, &[1, 2, 3]);
    let b = byte_buffer(&scope, &[1, 2]);
    assert_eq!(validate_buffer(&a, &b), Err(BenchError::Mismatch));
}

#[test]
fn shvec_push_len_and_resize() {
    let scope = OsmScope::new(0, 2);
    let mut v: ShVec<u8> = ShVec::with_capacity(4, &scope);
    assert_eq!(v.len(), 0);
    v.push(3);
    v.push(4);
    assert_eq!(v.len(), 2);
    v.resize_with(5, || 7);
    assert_eq!(v.len(), 5);
    assert_eq!(v.at(0), 3);
    assert_eq!(v.at(1), 4);
    assert_eq!(v.at(2), 7);
    assert_eq!(v.at(4), 7);
    v.resize_with(1, || 7);
    assert_eq!(v.len(), 1);
    assert_eq!(v.at(0), 3);
}

#[test]
fn error_messages_are_descriptive() {
    assert!(BenchError::OddParticipants.message().contains("even"));
    assert!(BenchError::InvalidOperandSize.message().contains("4 or 8"));
    assert!(BenchError::Mismatch.message().len() > 0);
    assert!(BenchError::EmptyTrace.message().len() > 0);
    assert!(BenchError::AllocationFailed.message().len() > 0);
    assert!(BenchError::MissingPutGetChoice.message().len() > 0);
}
