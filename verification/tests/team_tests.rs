use openshmem_benchmark::osm_arc::OsmArc;
use openshmem_benchmark::osm_arc::RefCount;
use openshmem_benchmark::osm_arc::drop_all_holders;
use openshmem_benchmark::osm_box::OsmBox;
use openshmem_benchmark::osm_scope::OsmScope;
use openshmem_benchmark::osm_team::TeamCreationError;
use openshmem_benchmark::osm_team::strided_team_ranks;
use openshmem_benchmark::osm_team::team_split_result;
use openshmem_benchmark::osm_wrapper::OsmWrapper;

#[test]
fn strided_team_lists_its_members() {
    assert_eq!(strided_team_ranks(2, 3, 4), vec![2, 5, 8, 11]);
    assert_eq!(strided_team_ranks(0, 1, 3), vec![0, 1, 2]);
    assert!(strided_team_ranks(5, 2, 0).is_empty());
}

#[test]
fn team_split_code_zero_is_success() {
    assert!(team_split_result(0).is_ok());
    assert_eq!(team_split_result(-1), Err(TeamCreationError::Fail));
    assert_eq!(team_split_result(3), Err(TeamCreationError::Fail));
}

#[test]
fn scope_reports_its_identity() {
    let scope = OsmScope::new(2, 8);
    assert_eq!(scope.my_pe(), 2);
    assert_eq!(scope.num_pes(), 8);
}

#[test]
fn owned_cell_reads_and_writes() {
    let scope = OsmScope::new(0, 2);
    let mut running = OsmBox::new(true, &scope);
    assert!(running.load());
    running.store(false);
    assert!(!running.load());
}

#[test]
fn shared_cell_reads_its_value() {
    let scope = OsmScope::new(0, 2);
    let shared = OsmArc::new(9u64, &scope);
    assert_eq!(shared.load(), 9);
    assert_eq!(shared.cell().get(), 9);
}

#[test]
fn single_cell_put_copies_the_value() {
    let source = OsmWrapper::new(false);
    let mut target = OsmWrapper::new(true);
    source.put_to_nbi(&mut target);
    assert!(!target.get());
}

#[test]
fn shared_cell_is_released_exactly_once() {
    let mut rc = RefCount::new();
    rc.retain();
    rc.retain();
    assert_eq!(rc.holders, 3);
    let frees = drop_all_holders(&mut rc);
    assert_eq!(frees, vec![false, false, true]);
    assert_eq!(frees.iter().filter(|&&f| f).count(), 1);
    assert_eq!(rc.holders, 0);
}

#[test]
fn early_release_does_not_free_while_holders_remain() {
    let mut rc = RefCount::new();
    rc.retain();
    assert!(!rc.release());
    assert!(rc.release());
}
