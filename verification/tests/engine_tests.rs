use openshmem_benchmark::BenchError;
use openshmem_benchmark::benchmark_loop::Action;
use openshmem_benchmark::benchmark_loop::cycle_stats;
use openshmem_benchmark::benchmark_loop::epoch_action;
use openshmem_benchmark::benchmark_loop::iteration_actions;
use openshmem_benchmark::benchmark_loop::iteration_barrier_count;
use openshmem_benchmark::benchmark_loop::next_seed;
use openshmem_benchmark::benchmark_loop::plan_benchmark;
use openshmem_benchmark::benchmark_loop::reports_result;
use openshmem_benchmark::benchmark_loop::signal_shutdown;
use openshmem_benchmark::benchmark_loop::shutdown_targets;
use openshmem_benchmark::benchmark_loop::total_messages;
use openshmem_benchmark::benchmark_loop::validation_role;
use openshmem_benchmark::benchmark_loop::working_set_indices;
use openshmem_benchmark::ops::AtomicOperation;
use openshmem_benchmark::ops::BroadcastOperation;
use openshmem_benchmark::ops::GetOperation;
use openshmem_benchmark::ops::OpenShmemOp;
use openshmem_benchmark::ops::Operation;
use openshmem_benchmark::ops::PutOperation;
use openshmem_benchmark::ops::RangeOperation;

#[test]
fn seed_sequence_starts_as_documented() {
    assert_eq!(next_seed(0), 1);
    assert_eq!(next_seed(1), 8);
    assert_eq!(next_seed(8), 57);
    assert_eq!(next_seed(57), 400);
}

#[test]
fn selection_sequence_is_reproducible_across_runs() {
    let (first, seed_a) = working_set_indices(0, 6, 4);
    let (second, seed_b) = working_set_indices(0, 6, 4);
    assert_eq!(first, second);
    assert_eq!(seed_a, seed_b);
    assert_eq!(first, vec![1, 0, 1, 0, 1, 0]);
    assert_eq!(seed_a, 19608);
}

#[test]
fn odd_participant_count_fails_before_any_collective() {
    let op = Operation::Range(RangeOperation::Put(PutOperation::Put));
    assert_eq!(plan_benchmark(&op, 0, 3, 8).unwrap_err(), BenchError::OddParticipants);
    assert_eq!(plan_benchmark(&op, 4, 5, 8).unwrap_err(), BenchError::OddParticipants);
}

#[test]
fn putget_without_ratio_or_sequence_is_rejected() {
    let op = Operation::Range(RangeOperation::PutGet {
        put_ratio_percent: None,
        op_sequence: None,
        blocking: true,
    });
    assert_eq!(plan_benchmark(&op, 0, 4, 8).unwrap_err(), BenchError::MissingPutGetChoice);
    let empty_seq = Operation::Range(RangeOperation::PutGet {
        put_ratio_percent: None,
        op_sequence: Some(vec![]),
        blocking: true,
    });
    assert_eq!(plan_benchmark(&empty_seq, 0, 4, 8).unwrap_err(), BenchError::MissingPutGetChoice);
}

#[test]
fn atomic_operations_override_the_data_size() {
    let op32 = Operation::Atomic { op: AtomicOperation::FetchAdd32, use_different_location: false };
    assert_eq!(plan_benchmark(&op32, 0, 4, 100).unwrap().data_size, 4);
    let op64 = Operation::Atomic { op: AtomicOperation::FetchAdd64, use_different_location: false };
    assert_eq!(plan_benchmark(&op64, 0, 4, 100).unwrap().data_size, 8);
}

#[test]
fn plan_partitions_participants_in_halves() {
    let op = Operation::Range(RangeOperation::Put(PutOperation::Put));
    let plan = plan_benchmark(&op, 3, 8, 16).unwrap();
    assert_eq!(plan.num_concurrency, 4);
    assert_eq!(plan.my_slot, 3);
    assert_eq!(plan.num_memory_location, 1);
    assert_eq!(plan.data_id, 0);
}

#[test]
fn put_is_issued_by_the_lower_half_to_its_partner() {
    let op = Operation::Range(RangeOperation::Put(PutOperation::Put));
    assert_eq!(
        epoch_action(&op, 0, 4, 1, 0, 1, 0, 0),
        Action::Put { target_pe: 2, blocking: true }
    );
    assert_eq!(
        epoch_action(&op, 1, 4, 1, 0, 1, 0, 0),
        Action::Put { target_pe: 3, blocking: true }
    );
    assert_eq!(epoch_action(&op, 2, 4, 1, 0, 1, 0, 0), Action::Idle);
    assert_eq!(epoch_action(&op, 3, 4, 1, 0, 1, 0, 0), Action::Idle);
}

#[test]
fn get_inverts_the_roles() {
    let op = Operation::Range(RangeOperation::Get(GetOperation::GetNonBlocking));
    assert_eq!(epoch_action(&op, 0, 4, 1, 0, 1, 0, 0), Action::Idle);
    assert_eq!(
        epoch_action(&op, 3, 4, 1, 0, 1, 0, 0),
        Action::Get { target_pe: 1, blocking: false }
    );
}

#[test]
fn putget_ratio_selects_put_share() {
    let always_put = Operation::Range(RangeOperation::PutGet {
        put_ratio_percent: Some(100),
        op_sequence: None,
        blocking: true,
    });
    assert_eq!(
        epoch_action(&always_put, 0, 4, 57, 0, 1, 0, 0),
        Action::Put { target_pe: 2, blocking: true }
    );
    let never_put = Operation::Range(RangeOperation::PutGet {
        put_ratio_percent: Some(0),
        op_sequence: None,
        blocking: false,
    });
    assert_eq!(
        epoch_action(&never_put, 0, 4, 57, 0, 1, 0, 0),
        Action::Get { target_pe: 2, blocking: false }
    );
}

#[test]
fn putget_sequence_is_replayed_cyclically() {
    let op = Operation::Range(RangeOperation::PutGet {
        put_ratio_percent: None,
        op_sequence: Some(vec![OpenShmemOp::Put, OpenShmemOp::Get]),
        blocking: true,
    });
    assert_eq!(
        epoch_action(&op, 0, 4, 1, 0, 1, 0, 0),
        Action::Put { target_pe: 2, blocking: true }
    );
    assert_eq!(
        epoch_action(&op, 0, 4, 1, 1, 1, 0, 0),
        Action::Get { target_pe: 2, blocking: true }
    );
    assert_eq!(
        epoch_action(&op, 0, 4, 1, 2, 1, 0, 0),
        Action::Put { target_pe: 2, blocking: true }
    );
}

#[test]
fn atomic_targets_are_shared_or_spread() {
    let shared = Operation::Atomic { op: AtomicOperation::FetchAdd64, use_different_location: false };
    assert_eq!(
        epoch_action(&shared, 3, 4, 1, 0, 9, 0, 0),
        Action::FetchAdd64 { target_pe: 0, value: 9 }
    );
    let spread = Operation::Atomic {
        op: AtomicOperation::CompareAndSwap32,
        use_different_location: true,
    };
    assert_eq!(
        epoch_action(&spread, 3, 4, 1, 0, 9, 2, 0),
        Action::CompareAndSwap32 { target_pe: 1, expected: 2, desired: 0 }
    );
}

#[test]
fn every_rank_issues_the_same_barrier_count() {
    let a = iteration_barrier_count(100, 0);
    let b = iteration_barrier_count(100, 3);
    assert_eq!(a, b);
    assert_eq!(a, 101);
}

#[test]
fn rank_zero_clears_every_running_flag() {
    let mut flags = vec![true, true, true, true];
    signal_shutdown(&mut flags, false, 0);
    assert_eq!(flags, vec![false, false, false, false]);
}

#[test]
fn other_ranks_never_signal_shutdown() {
    let mut flags = vec![true, true, true, true];
    signal_shutdown(&mut flags, false, 1);
    assert_eq!(flags, vec![true, true, true, true]);
    signal_shutdown(&mut flags, true, 0);
    assert_eq!(flags, vec![true, true, true, true]);
}

#[test]
fn shutdown_targets_cover_all_ranks_exactly_once() {
    assert_eq!(shutdown_targets(false, 0, 4), vec![0, 1, 2, 3]);
    assert!(shutdown_targets(true, 0, 4).is_empty());
    assert!(shutdown_targets(false, 2, 4).is_empty());
}

#[test]
fn message_count_is_the_product_of_epochs_and_buffers() {
    assert_eq!(total_messages(100, 4), Some(400));
    assert_eq!(total_messages(usize::MAX, 2), None);
}

#[test]
fn result_reporting_follows_the_active_role() {
    let put = Operation::Range(RangeOperation::Put(PutOperation::Put));
    assert!(reports_result(&put, 0, 2));
    assert!(!reports_result(&put, 2, 2));
    let get = Operation::Range(RangeOperation::Get(GetOperation::Get));
    assert!(!reports_result(&get, 0, 2));
    assert!(reports_result(&get, 2, 2));
    let atomic = Operation::Atomic { op: AtomicOperation::FetchAdd32, use_different_location: false };
    assert!(reports_result(&atomic, 0, 2));
    assert!(reports_result(&atomic, 3, 2));
    // For a broadcast only the root's data is meaningful, so only the root
    // reports.
    let broadcast = Operation::Range(RangeOperation::Broadcast(BroadcastOperation::Broadcast));
    assert!(reports_result(&broadcast, 0, 2));
    assert!(!reports_result(&broadcast, 1, 2));
    assert!(!reports_result(&broadcast, 2, 2));
}

#[test]
fn the_destination_holder_validates() {
    let put = Operation::Range(RangeOperation::Put(PutOperation::Put));
    assert!(!validation_role(&put, 0, 2));
    assert!(validation_role(&put, 2, 2));
    // For a get the roles invert: the getter filled its own destination
    // and validates it.
    let get = Operation::Range(RangeOperation::Get(GetOperation::Get));
    assert!(!validation_role(&get, 1, 2));
    assert!(validation_role(&get, 3, 2));
    let atomic = Operation::Atomic { op: AtomicOperation::FetchAdd64, use_different_location: false };
    assert!(!validation_role(&atomic, 0, 2));
}

#[test]
fn barrier_steps_of_a_mix_issue_nothing_on_either_half() {
    let op = Operation::Range(RangeOperation::PutGet {
        put_ratio_percent: None,
        op_sequence: Some(vec![OpenShmemOp::Barrier, OpenShmemOp::Fence]),
        blocking: true,
    });
    // The barrier step is a no-communication step for every rank, so the
    // per-iteration barrier counts stay equal across the halves.
    for pe in 0..4 {
        assert_eq!(epoch_action(&op, pe, 4, 1, 0, 1, 0, 0), Action::Idle);
    }
    // The fence step is local ordering and is issued by initiators only.
    assert_eq!(epoch_action(&op, 0, 4, 1, 1, 1, 0, 0), Action::Fence);
    assert_eq!(epoch_action(&op, 3, 4, 1, 1, 1, 0, 0), Action::Idle);
}

#[test]
fn cycle_stats_even_length() {
    let cycles = vec![5, 3, 9, 3];
    let (stats, sorted) = cycle_stats(&cycles);
    assert_eq!(sorted, vec![3, 3, 5, 9]);
    assert_eq!(stats.min, 3);
    assert_eq!(stats.max, 9);
    assert_eq!(stats.median_twice, 8);
    assert_eq!(stats.total, 20);
    assert_eq!(stats.count, 4);
}

#[test]
fn cycle_stats_odd_length() {
    let cycles = vec![7, 1, 5];
    let (stats, sorted) = cycle_stats(&cycles);
    assert_eq!(sorted, vec![1, 5, 7]);
    assert_eq!(stats.min, 1);
    assert_eq!(stats.max, 7);
    assert_eq!(stats.median_twice, 10);
    assert_eq!(stats.total, 13);
    assert_eq!(stats.count, 3);
}

#[test]
fn iteration_schedule_selects_and_dispatches_every_buffer() {
    let op = Operation::Range(RangeOperation::Put(PutOperation::Put));
    let (plan, seed, k) = iteration_actions(&op, 0, 4, 0, 3, 2, 4, 0);
    assert_eq!(plan.len(), 6);
    assert_eq!(seed, 57);
    assert_eq!(k, 6);
    // Seeds 1, 8 and 57 select working sets 1, 0 and 1.
    assert_eq!(plan[0].working_set, 1);
    assert_eq!(plan[1].working_set, 1);
    assert_eq!(plan[2].working_set, 0);
    assert_eq!(plan[3].working_set, 0);
    assert_eq!(plan[4].working_set, 1);
    for step in &plan {
        assert_eq!(step.action, Action::Put { target_pe: 2, blocking: true });
    }
    let (passive, _, _) = iteration_actions(&op, 3, 4, 0, 3, 2, 4, 0);
    for step in &passive {
        assert_eq!(step.action, Action::Idle);
    }
}
