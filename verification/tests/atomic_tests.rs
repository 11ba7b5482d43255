use openshmem_benchmark::osm_wrapper::OsmWrapper;
use openshmem_benchmark::osm_wrapper::compare_and_swap_round;
use openshmem_benchmark::osm_wrapper::compare_and_swap_round_each;
use openshmem_benchmark::osm_wrapper::fetch_add_round;

#[test]
fn fetch_add_returns_previous_value() {
    let mut cell = OsmWrapper::new(10u64);
    assert_eq!(cell.fetch_add(5), 10);
    assert_eq!(cell.get(), 15);
}

#[test]
fn fetch_add_wraps_at_the_cell_width() {
    let mut cell = OsmWrapper::new(u64::MAX);
    assert_eq!(cell.fetch_add(1), u64::MAX);
    assert_eq!(cell.get(), 0);
    assert_eq!(cell.fetch_add(7), 0);
    assert_eq!(cell.get(), 7);
}

#[test]
fn concurrent_fetch_adds_sum_and_permute() {
    let mut cell = OsmWrapper::new(100u64);
    let prevs = fetch_add_round(&mut cell, 5);
    assert_eq!(cell.get(), 105);
    assert_eq!(prevs.len(), 5);
    let mut seen = prevs.clone();
    seen.sort();
    assert_eq!(seen, vec![100, 101, 102, 103, 104]);
}

#[test]
fn fetch_add_round_of_one_reads_the_initial_value() {
    let mut cell = OsmWrapper::new(0u64);
    let prevs = fetch_add_round(&mut cell, 1);
    assert_eq!(prevs, vec![0]);
    assert_eq!(cell.get(), 1);
}

#[test]
fn compare_and_swap_installs_on_match() {
    let mut cell = OsmWrapper::new(42u64);
    assert_eq!(cell.compare_and_swap(42, 7), 42);
    assert_eq!(cell.get(), 7);
}

#[test]
fn compare_and_swap_leaves_on_mismatch() {
    let mut cell = OsmWrapper::new(42u64);
    assert_eq!(cell.compare_and_swap(41, 7), 42);
    assert_eq!(cell.get(), 42);
}

#[test]
fn exactly_one_concurrent_cas_wins() {
    let mut cell = OsmWrapper::new(42u64);
    let prevs = compare_and_swap_round(&mut cell, 42, 7, 4);
    assert_eq!(cell.get(), 7);
    assert_eq!(prevs, vec![42, 7, 7, 7]);
    let winners = prevs.iter().filter(|&&p| p == 42).count();
    assert_eq!(winners, 1);
    for &p in prevs.iter().skip(1) {
        assert_ne!(p, 42);
    }
}

#[test]
fn one_winner_even_with_distinct_desired_values() {
    let mut cell = OsmWrapper::new(5u64);
    let desireds = vec![11, 12, 13];
    let prevs = compare_and_swap_round_each(&mut cell, 5, &desireds);
    // The first caller in the linearization order installs its value; the
    // others observe it and fail against their expected 5.
    assert_eq!(cell.get(), 11);
    assert_eq!(prevs, vec![5, 11, 11]);
    assert_eq!(prevs.iter().filter(|&&p| p == 5).count(), 1);
}
