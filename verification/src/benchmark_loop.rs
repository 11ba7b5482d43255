//! Decision core of the steady-state benchmark loops.
//!
//! One instance of the loop runs per participant, with no shared state
//! beyond the symmetric heap and the explicit synchronization points.  The
//! functions here are the decisions that loop makes — role partitioning,
//! pseudo-random working-set selection, per-epoch operation dispatch,
//! barrier accounting and the cooperative shutdown protocol — stated as
//! pure functions of the configuration and the participant identity.  The
//! unverified driver owns the wall clock and the communication runtime; it
//! asks these functions what to do and performs the verbs.

use vstd::prelude::*;

use crate::BenchError;
use crate::layout::RangeBenchmarkData;
use crate::layout::WorkingSet;
use crate::layout::validate_buffer;
use crate::ops::AtomicOperation;
use crate::ops::BroadcastOperation;
use crate::ops::GetOperation;
use crate::ops::OpenShmemOp;
use crate::ops::Operation;
use crate::ops::PutOperation;
use crate::ops::RangeOperation;
use crate::osm_vec::ShVec;

verus! {

/// Modulus of the pseudo-random selection sequence.
pub const SEED_PRIME: u64 = 1_000_000_007;

/// One step of the deterministic pseudo-random sequence that drives
/// working-set selection.
pub open spec fn spec_next_seed(seed: int) -> int {
    (1 + seed * 7) % 1_000_000_007
}

/// The seed after `n` steps from `seed0`.
pub open spec fn spec_seed_at(seed0: int, n: nat) -> int
    decreases n,
{
    if n == 0 {
        seed0
    } else {
        spec_next_seed(spec_seed_at(seed0, (n - 1) as nat))
    }
}

/// The working-set index selected at step `n` (the seed is advanced before
/// each selection, so step `t` of the loop uses `n == t + 1`).
pub open spec fn spec_selection(seed0: int, n: nat, num_working_set: int) -> int {
    spec_seed_at(seed0, n) % num_working_set
}

/// Advances the pseudo-random seed by one step.
pub fn next_seed(seed: u64) -> (r: u64)
    requires
        seed < SEED_PRIME,
    ensures
        r == spec_next_seed(seed as int),
        r < SEED_PRIME,
{
    (1 + seed * 7) % SEED_PRIME
}

/// The selection sequence of `count` working-set indices starting from
/// `seed0`, together with the seed the loop holds afterwards.
pub fn working_set_indices(seed0: u64, count: usize, num_working_set: usize) -> (r: (
    Vec<usize>,
    u64,
))
    requires
        seed0 < SEED_PRIME,
        num_working_set > 0,
    ensures
        r.0@.len() == count,
        forall|t: int|
            0 <= t < count ==> #[trigger] r.0@[t] == spec_selection(
                seed0 as int,
                (t + 1) as nat,
                num_working_set as int,
            ),
        r.1 == spec_seed_at(seed0 as int, count as nat),
        r.1 < SEED_PRIME,
{
    let mut indices: Vec<usize> = Vec::with_capacity(count);
    let mut seed = seed0;
    let mut t: usize = 0;
    while t < count
        invariant
            t <= count,
            num_working_set > 0,
            seed < SEED_PRIME,
            seed == spec_seed_at(seed0 as int, t as nat),
            indices@.len() == t,
            forall|u: int|
                0 <= u < t ==> #[trigger] indices@[u] == spec_selection(
                    seed0 as int,
                    (u + 1) as nat,
                    num_working_set as int,
                ),
        decreases count - t,
    {
        seed = next_seed(seed);
        indices.push(seed as usize % num_working_set);
        t += 1;
    }
    (indices, seed)
}

/// The working-set selection sequence is a function of the starting seed
/// and the configuration alone: two independent runs that record sequences
/// of the same length from the same seed and working-set count record the
/// same indices.
pub proof fn lemma_selection_reproducible(
    seed0: int,
    count: nat,
    num_working_set: int,
    first: Seq<int>,
    second: Seq<int>,
)
    requires
        first.len() == count,
        second.len() == count,
        forall|t: int|
            0 <= t < count ==> #[trigger] first[t] == spec_selection(
                seed0,
                (t + 1) as nat,
                num_working_set,
            ),
        forall|t: int|
            0 <= t < count ==> #[trigger] second[t] == spec_selection(
                seed0,
                (t + 1) as nat,
                num_working_set,
            ),
    ensures
        first == second,
{
    assert(first =~= second);
}

/// Whether a put/get mix has a way to choose between put and get: either a
/// ratio or a non-empty explicit sequence.  Every other operation needs no
/// choice.
pub open spec fn spec_choice_present(op: Operation) -> bool {
    match op {
        Operation::Range(
            RangeOperation::PutGet { put_ratio_percent, op_sequence, .. },
        ) => put_ratio_percent is Some || (op_sequence matches Some(s) && s@.len() > 0),
        _ => true,
    }
}

/// The operand size an atomic operation works on, in bytes.
pub open spec fn spec_atomic_data_size(op: AtomicOperation) -> int {
    match op {
        AtomicOperation::FetchAdd32 => 4,
        AtomicOperation::CompareAndSwap32 => 4,
        AtomicOperation::FetchAdd64 => 8,
        AtomicOperation::CompareAndSwap64 => 8,
    }
}

/// The setup a participant derives before entering the steady-state loop.
#[derive(Clone, Copy, Debug)]
pub struct BenchPlan {
    /// Half the participant count: the number of initiator/target pairs.
    pub num_concurrency: usize,
    /// The per-buffer byte length, after the atomic override.
    pub data_size: usize,
    /// How many independent data copies are built (one per pair for
    /// broadcast, one otherwise).
    pub num_memory_location: usize,
    /// Which of those copies this participant drives.
    pub data_id: usize,
    /// This participant's slot within its half.
    pub my_slot: usize,
}

/// Derives the startup plan for one participant.  Startup fails
/// deterministically — before any collective call — with
/// `OddParticipants` on an odd participant count, and with
/// `MissingPutGetChoice` on a put/get mix that names neither a ratio nor a
/// sequence.
pub fn plan_benchmark(operation: &Operation, my_pe: usize, num_pe: usize, data_size: usize) -> (r:
    Result<BenchPlan, BenchError>)
    requires
        my_pe < num_pe,
    ensures
        r is Ok <==> num_pe % 2 == 0 && spec_choice_present(*operation),
        num_pe % 2 != 0 ==> r == Err::<BenchPlan, BenchError>(BenchError::OddParticipants),
        num_pe % 2 == 0 && !spec_choice_present(*operation) ==> r == Err::<
            BenchPlan,
            BenchError,
        >(BenchError::MissingPutGetChoice),
        r matches Ok(p) ==> {
            &&& p.num_concurrency == num_pe / 2
            &&& p.my_slot == my_pe % (num_pe / 2)
            &&& p.data_size == (match *operation {
                Operation::Atomic { op, .. } => spec_atomic_data_size(op),
                _ => data_size as int,
            })
            &&& p.num_memory_location == (match *operation {
                Operation::Range(RangeOperation::Broadcast(_)) => (num_pe / 2) as int,
                _ => 1,
            })
            &&& p.data_id == (match *operation {
                Operation::Range(RangeOperation::Broadcast(_)) => p.my_slot as int,
                _ => 0,
            })
            &&& p.my_slot < p.num_concurrency
        },
{
    if num_pe % 2 != 0 {
        return Err(BenchError::OddParticipants);
    }
    let choice_ok = match operation {
        Operation::Range(RangeOperation::PutGet { put_ratio_percent, op_sequence, .. }) => {
            match (put_ratio_percent, op_sequence) {
                (Some(_), _) => true,
                (None, Some(s)) => s.len() > 0,
                (None, None) => false,
            }
        },
        _ => true,
    };
    if !choice_ok {
        return Err(BenchError::MissingPutGetChoice);
    }
    let num_concurrency = num_pe / 2;
    let my_slot = my_pe % num_concurrency;
    let data_size_eff = match operation {
        Operation::Atomic { op, .. } => {
            match op {
                AtomicOperation::FetchAdd32 => 4,
                AtomicOperation::CompareAndSwap32 => 4,
                AtomicOperation::FetchAdd64 => 8,
                AtomicOperation::CompareAndSwap64 => 8,
            }
        },
        _ => data_size,
    };
    let num_memory_location = match operation {
        Operation::Range(RangeOperation::Broadcast(_)) => num_concurrency,
        _ => 1,
    };
    let data_id = match operation {
        Operation::Range(RangeOperation::Broadcast(_)) => my_slot,
        _ => 0,
    };
    Ok(BenchPlan { num_concurrency, data_size: data_size_eff, num_memory_location, data_id, my_slot })
}

/// One concrete step of the loop: the verb a participant issues for one
/// buffer of the selected epoch, or `Idle` for the passive role.
#[derive(Clone, Copy, Debug, PartialEq, Eq, Structural)]
pub enum Action {
    /// Copy the buffer to the paired participant.
    Put { target_pe: usize, blocking: bool },
    /// Fill the buffer from the paired participant.
    Get { target_pe: usize, blocking: bool },
    /// Replicate the root's buffer to every participant.
    Broadcast { root_pe: usize },
    /// Native collective exchange among all participants.
    AllToAll,
    /// Atomic fetch-and-add on the 4-byte shared cell of `target_pe`.
    FetchAdd32 { target_pe: usize, value: u32 },
    /// Atomic fetch-and-add on the 8-byte shared cell of `target_pe`.
    FetchAdd64 { target_pe: usize, value: u64 },
    /// Atomic compare-and-swap on the 4-byte shared cell of `target_pe`.
    CompareAndSwap32 { target_pe: usize, expected: u32, desired: u32 },
    /// Atomic compare-and-swap on the 8-byte shared cell of `target_pe`.
    CompareAndSwap64 { target_pe: usize, expected: u64, desired: u64 },
    /// Participant-driven all-gather, realized as chunked puts.
    AllGather,
    /// Participant-driven all-reduce, realized as chunked puts.
    AllReduce,
    /// An ordering fence, issued in place of a transfer.
    Fence,
    /// Nothing to issue in this step.
    Idle,
}

/// Whether a sequence of cycle counts is in ascending order.
pub open spec fn spec_sorted(s: Seq<u64>) -> bool {
    forall|a: int, b: int| 0 <= a < b < s.len() ==> s[a] <= s[b]
}

/// The sum of a sequence of cycle counts.
pub open spec fn spec_sum(s: Seq<u64>) -> int
    decreases s.len(),
{
    if s.len() == 0 {
        0
    } else {
        spec_sum(s.drop_last()) + s.last()
    }
}

/// The index of a smallest element.
fn min_index(v: &Vec<u64>) -> (r: usize)
    requires
        v@.len() > 0,
    ensures
        r < v@.len(),
        forall|j: int| 0 <= j < v@.len() ==> v@[r as int] <= #[trigger] v@[j],
{
    let mut best: usize = 0;
    let mut i: usize = 1;
    while i < v.len()
        invariant
            best < i <= v@.len(),
            forall|j: int| 0 <= j < i ==> v@[best as int] <= #[trigger] v@[j],
        decreases v@.len() - i,
    {
        if v[i] < v[best] {
            best = i;
        }
        i += 1;
    }
    best
}

/// An ascending copy of the recorded cycle counts, holding exactly the
/// same values.
fn sorted_copy(v: &Vec<u64>) -> (r: Vec<u64>)
    ensures
        r@.len() == v@.len(),
        spec_sorted(r@),
        r@.to_multiset() == v@.to_multiset(),
{
    let mut rest: Vec<u64> = Vec::with_capacity(v.len());
    let mut i: usize = 0;
    while i < v.len()
        invariant
            i <= v@.len(),
            rest@ == v@.take(i as int),
        decreases v@.len() - i,
    {
        rest.push(v[i]);
        proof {
            assert(rest@ =~= v@.take(i + 1));
        }
        i += 1;
    }
    proof {
        assert(rest@ =~= v@);
    }
    let mut out: Vec<u64> = Vec::with_capacity(v.len());
    proof {
        broadcast use vstd::seq_lib::group_to_multiset_ensures;

        assert(out@.to_multiset().add(rest@.to_multiset()) =~= v@.to_multiset());
    }
    while rest.len() > 0
        invariant
            spec_sorted(out@),
            out@.len() + rest@.len() == v@.len(),
            forall|a: int, b: int|
                0 <= a < out@.len() && 0 <= b < rest@.len() ==> #[trigger] out@[a]
                    <= #[trigger] rest@[b],
            out@.to_multiset().add(rest@.to_multiset()) == v@.to_multiset(),
        decreases rest@.len(),
    {
        let m = min_index(&rest);
        let ghost rest0 = rest@;
        let ghost out0 = out@;
        let x = rest.remove(m);
        out.push(x);
        proof {
            broadcast use vstd::seq_lib::group_to_multiset_ensures;

            assert(rest@ == rest0.remove(m as int));
            assert(rest@.to_multiset() =~= rest0.to_multiset().remove(x));
            assert(out@.to_multiset() =~= out0.to_multiset().insert(x));
            assert(rest0.to_multiset().count(x) > 0) by {
                assert(rest0[m as int] == x);
                assert(rest0.contains(x));
            }
            assert(out@.to_multiset().add(rest@.to_multiset()) =~= out0.to_multiset().add(
                rest0.to_multiset(),
            ));
            rest0.remove_ensures(m as int);
        }
    }
    proof {
        broadcast use vstd::seq_lib::group_to_multiset_ensures;

        assert(out@.to_multiset() =~= v@.to_multiset());
    }
    out
}

/// The per-operation latency summary of one inner-iteration block: the
/// smallest, largest and doubled median recorded cycle count (doubled so
/// that the even-length midpoint needs no fraction), the total of all
/// counts and their number.  The unverified driver divides total by count
/// for the mean and converts cycles to wall time.
pub struct LatencyStats {
    pub min: u64,
    pub max: u64,
    pub median_twice: u64,
    pub total: u128,
    pub count: usize,
}

/// Summarizes recorded cycle counts.  The returned sequence is the
/// ascending ordering of the input, and every statistic is stated against
/// it: the minimum is its first element, the maximum its last, the doubled
/// median the sum of the two middle elements (twice the middle one for odd
/// lengths), and the total the sum of all recorded counts.
pub fn cycle_stats(cycles: &Vec<u64>) -> (r: (LatencyStats, Vec<u64>))
    requires
        cycles@.len() > 0,
        forall|i: int| 0 <= i < cycles@.len() ==> #[trigger] cycles@[i] < 0x8000_0000_0000_0000,
    ensures
        r.1@.len() == cycles@.len(),
        spec_sorted(r.1@),
        r.1@.to_multiset() == cycles@.to_multiset(),
        r.0.count == cycles@.len(),
        r.0.min == r.1@[0],
        r.0.max == r.1@[r.1@.len() - 1],
        r.0.median_twice == if cycles@.len() % 2 == 0 {
            r.1@[cycles@.len() as int / 2] + r.1@[cycles@.len() as int / 2 - 1]
        } else {
            2 * r.1@[cycles@.len() as int / 2]
        },
        r.0.total == spec_sum(cycles@),
{
    let sorted = sorted_copy(cycles);
    let n = sorted.len();
    proof {
        assert forall|i: int| 0 <= i < sorted@.len() implies #[trigger] sorted@[i]
            < 0x8000_0000_0000_0000 by {
            broadcast use vstd::seq_lib::group_to_multiset_ensures;

            assert(sorted@.contains(sorted@[i]));
            assert(cycles@.to_multiset().count(sorted@[i]) > 0);
            assert(cycles@.contains(sorted@[i]));
        }
    }
    let min = sorted[0];
    let max = sorted[n - 1];
    let median_twice: u64 = if n % 2 == 0 {
        sorted[n / 2] + sorted[n / 2 - 1]
    } else {
        2 * sorted[n / 2]
    };
    let mut total: u128 = 0;
    let mut i: usize = 0;
    while i < cycles.len()
        invariant
            i <= cycles@.len(),
            total == spec_sum(cycles@.take(i as int)),
            total <= i * 0xffff_ffff_ffff_ffffu64,
        decreases cycles@.len() - i,
    {
        proof {
            assert(cycles@.take(i + 1).drop_last() =~= cycles@.take(i as int));
            assert((i + 1) * 0xffff_ffff_ffff_ffffu64 == i * 0xffff_ffff_ffff_ffffu64
                + 0xffff_ffff_ffff_ffffu64) by (nonlinear_arith);
        }
        total = total + cycles[i] as u128;
        i += 1;
    }
    proof {
        assert(cycles@.take(cycles@.len() as int) =~= cycles@);
    }
    (LatencyStats { min, max, median_twice, total, count: n }, sorted)
}

/// One scheduled step of an outer iteration: the selected working-set
/// index and the action to issue for one buffer of its epoch.
#[derive(Clone, Copy, Debug, PartialEq, Eq, Structural)]
pub struct ScheduledAction {
    pub working_set: usize,
    pub action: Action,
}

/// The complete dispatch of one outer iteration of the steady-state loop:
/// for each of the `epoch_per_iteration` epochs the pseudo-random seed
/// advances and selects a working set, and every buffer of the selected
/// epoch is dispatched in order.  A fetch-add carries the epoch's seed as
/// its operand and a compare-and-swap the fixed pair (2, 0), as the
/// steady-state loop does.  Returns the schedule, the seed the loop holds
/// afterwards and the advanced sequence position.
pub fn iteration_actions(
    op: &Operation,
    my_pe: usize,
    num_pe: usize,
    seed0: u64,
    epoch_per_iteration: usize,
    epoch_size: usize,
    num_working_set: usize,
    k0: usize,
) -> (r: (Vec<ScheduledAction>, u64, usize))
    requires
        my_pe < num_pe,
        num_pe % 2 == 0,
        num_pe >= 2,
        seed0 < SEED_PRIME,
        num_working_set > 0,
        epoch_per_iteration * epoch_size <= usize::MAX - k0,
    ensures
        r.0@.len() == epoch_per_iteration * epoch_size,
        forall|e: int, b: int|
            0 <= e < epoch_per_iteration && 0 <= b < epoch_size ==> {
                let step = #[trigger] r.0@[e * epoch_size + b];
                &&& step.working_set == spec_selection(
                    seed0 as int,
                    (e + 1) as nat,
                    num_working_set as int,
                )
                &&& step.action == spec_epoch_action(
                    *op,
                    my_pe as int,
                    num_pe as int,
                    spec_seed_at(seed0 as int, (e + 1) as nat) as u64,
                    k0 + e * epoch_size + b,
                    spec_seed_at(seed0 as int, (e + 1) as nat) as u64,
                    2,
                    0,
                )
            },
        r.1 == spec_seed_at(seed0 as int, epoch_per_iteration as nat),
        r.1 < SEED_PRIME,
        r.2 == k0 + epoch_per_iteration * epoch_size,
{
    let mut plan: Vec<ScheduledAction> = Vec::new();
    let mut seed = seed0;
    let mut k = k0;
    let mut e: usize = 0;
    while e < epoch_per_iteration
        invariant
            e <= epoch_per_iteration,
            my_pe < num_pe,
            num_pe % 2 == 0,
            num_pe >= 2,
            num_working_set > 0,
            seed < SEED_PRIME,
            seed == spec_seed_at(seed0 as int, e as nat),
            epoch_per_iteration * epoch_size <= usize::MAX - k0,
            k == k0 + e * epoch_size,
            plan@.len() == e * epoch_size,
            forall|e0: int, b0: int|
                0 <= e0 < e && 0 <= b0 < epoch_size ==> {
                    let step = #[trigger] plan@[e0 * epoch_size + b0];
                    &&& step.working_set == spec_selection(
                        seed0 as int,
                        (e0 + 1) as nat,
                        num_working_set as int,
                    )
                    &&& step.action == spec_epoch_action(
                        *op,
                        my_pe as int,
                        num_pe as int,
                        spec_seed_at(seed0 as int, (e0 + 1) as nat) as u64,
                        k0 + e0 * epoch_size + b0,
                        spec_seed_at(seed0 as int, (e0 + 1) as nat) as u64,
                        2,
                        0,
                    )
                },
        decreases epoch_per_iteration - e,
    {
        proof {
            assert((e + 1) * epoch_size == e * epoch_size + epoch_size) by (nonlinear_arith);
            assert((e + 1) * epoch_size <= epoch_per_iteration * epoch_size) by (nonlinear_arith)
                requires
                    0 <= e < epoch_per_iteration,
                    0 <= epoch_size,
            ;
        }
        seed = next_seed(seed);
        let i = seed as usize % num_working_set;
        let mut b: usize = 0;
        while b < epoch_size
            invariant
                b <= epoch_size,
                my_pe < num_pe,
                num_pe % 2 == 0,
                num_pe >= 2,
                num_working_set > 0,
                seed < SEED_PRIME,
                seed == spec_seed_at(seed0 as int, (e + 1) as nat),
                i == spec_selection(seed0 as int, (e + 1) as nat, num_working_set as int),
                e < epoch_per_iteration,
                epoch_per_iteration * epoch_size <= usize::MAX - k0,
                (e + 1) * epoch_size <= epoch_per_iteration * epoch_size,
                e * epoch_size + epoch_size == (e + 1) * epoch_size,
                k == k0 + e * epoch_size + b,
                plan@.len() == e * epoch_size + b,
                forall|e0: int, b0: int|
                    0 <= e0 < e && 0 <= b0 < epoch_size ==> {
                        let step = #[trigger] plan@[e0 * epoch_size + b0];
                        &&& step.working_set == spec_selection(
                            seed0 as int,
                            (e0 + 1) as nat,
                            num_working_set as int,
                        )
                        &&& step.action == spec_epoch_action(
                            *op,
                            my_pe as int,
                            num_pe as int,
                            spec_seed_at(seed0 as int, (e0 + 1) as nat) as u64,
                            k0 + e0 * epoch_size + b0,
                            spec_seed_at(seed0 as int, (e0 + 1) as nat) as u64,
                            2,
                            0,
                        )
                    },
                forall|b0: int|
                    0 <= b0 < b ==> {
                        let step = #[trigger] plan@[e * epoch_size + b0];
                        &&& step.working_set == i
                        &&& step.action == spec_epoch_action(
                            *op,
                            my_pe as int,
                            num_pe as int,
                            seed,
                            k0 + e * epoch_size + b0,
                            seed,
                            2,
                            0,
                        )
                    },
            decreases epoch_size - b,
        {
            let action = epoch_action(op, my_pe, num_pe, seed, k, seed, 2, 0);
            plan.push(ScheduledAction { working_set: i, action });
            proof {
                assert forall|e0: int, b0: int| 0 <= e0 < e && 0 <= b0 < epoch_size implies (
                #[trigger] plan@[e0 * epoch_size + b0]) == plan@[e0 * epoch_size + b0] && e0
                    * epoch_size + b0 < e * epoch_size by {
                    assert(e0 * epoch_size + epoch_size == (e0 + 1) * epoch_size)
                        by (nonlinear_arith);
                    assert((e0 + 1) * epoch_size <= e * epoch_size) by (nonlinear_arith)
                        requires
                            0 <= e0 < e,
                            0 <= epoch_size,
                    ;
                }
            }
            k += 1;
            b += 1;
        }
        e += 1;
    }
    (plan, seed, k)
}

/// Whether epoch `i` of the destination working set holds, buffer for
/// buffer, the bytes of epoch `i` of the source working set.
pub open spec fn epoch_matches(dst: WorkingSet, src: WorkingSet, i: int, es: int) -> bool {
    forall|b: int|
        0 <= b < es ==> (#[trigger] dst.epoches@[i].data@[b])@ == src.epoches@[i].data@[b]@
}

/// Puts every buffer of epoch `i` of the initiator's source working set
/// into the same epoch of the paired participant's destination working
/// set; all other epochs stay untouched.
fn copy_epoch(src: &WorkingSet, dst: &mut WorkingSet, i: usize, epoch_size: usize)
    requires
        i < src.epoches@.len(),
        i < old(dst).epoches@.len(),
        src.epoches@[i as int].data@.len() == epoch_size,
        old(dst).epoches@[i as int].data@.len() == epoch_size,
        forall|b: int|
            0 <= b < epoch_size ==> (#[trigger] src.epoches@[i as int].data@[b])@.len() == old(
                dst,
            ).epoches@[i as int].data@[b]@.len(),
    ensures
        final(dst).epoches@.len() == old(dst).epoches@.len(),
        epoch_matches(*final(dst), *src, i as int, epoch_size as int),
        forall|j: int|
            0 <= j < old(dst).epoches@.len() && j != i ==> #[trigger] final(dst).epoches@[j] == old(
                dst,
            ).epoches@[j],
        final(dst).epoches@[i as int].data@.len() == epoch_size,
    decreases epoch_size,
{
    let mut b: usize = 0;
    while b < epoch_size
        invariant
            b <= epoch_size,
            i < src.epoches@.len(),
            i < dst.epoches@.len(),
            dst.epoches@.len() == old(dst).epoches@.len(),
            src.epoches@[i as int].data@.len() == epoch_size,
            dst.epoches@[i as int].data@.len() == epoch_size,
            forall|c: int|
                0 <= c < epoch_size ==> (#[trigger] src.epoches@[i as int].data@[c])@.len() == old(
                    dst,
                ).epoches@[i as int].data@[c]@.len(),
            forall|j: int|
                0 <= j < dst.epoches@.len() && j != i ==> #[trigger] dst.epoches@[j] == old(
                    dst,
                ).epoches@[j],
            forall|c: int|
                0 <= c < b ==> (#[trigger] dst.epoches@[i as int].data@[c])@ == src.epoches@[i
                    as int].data@[c]@,
            forall|c: int|
                b <= c < epoch_size ==> #[trigger] dst.epoches@[i as int].data@[c] == old(
                    dst,
                ).epoches@[i as int].data@[c],
        decreases epoch_size - b,
    {
        src.epoches[i].data[b].slice().put_to(dst.epoches[i].data[b].slice_mut());
        b += 1;
    }
}

/// Validates every buffer of epoch `i` of the destination against the
/// source: `Ok` exactly when each one is byte-for-byte identical.
pub fn validate_epoch(src: &WorkingSet, dst: &WorkingSet, i: usize, epoch_size: usize) -> (r:
    Result<(), BenchError>)
    requires
        i < src.epoches@.len(),
        i < dst.epoches@.len(),
        src.epoches@[i as int].data@.len() == epoch_size,
        dst.epoches@[i as int].data@.len() == epoch_size,
    ensures
        r is Ok <==> epoch_matches(*dst, *src, i as int, epoch_size as int),
        r is Err ==> r == Err::<(), BenchError>(BenchError::Mismatch),
{
    let mut b: usize = 0;
    while b < epoch_size
        invariant
            b <= epoch_size,
            i < src.epoches@.len(),
            i < dst.epoches@.len(),
            src.epoches@[i as int].data@.len() == epoch_size,
            dst.epoches@[i as int].data@.len() == epoch_size,
            forall|c: int|
                0 <= c < b ==> (#[trigger] dst.epoches@[i as int].data@[c])@ == src.epoches@[i
                    as int].data@[c]@,
        decreases epoch_size - b,
    {
        let check = validate_buffer(&src.epoches[i].data[b], &dst.epoches[i].data[b]);
        if check.is_err() {
            return Err(BenchError::Mismatch);
        }
        b += 1;
    }
    Ok(())
}

/// One inner-iteration block of a blocking-put run over one
/// initiator/target pair of the modeled job: each of
/// `epoch_per_iteration` epochs advances the pseudo-random sequence,
/// selects a working-set copy, puts every buffer of it to the paired
/// participant, lets the barrier drain the puts and validates on the
/// passive side.  Validation never fails, every selected epoch ends
/// byte-identical on the target, and the messages issued count exactly
/// `epoch_per_iteration * epoch_size`.
pub fn run_put_iteration(
    source: &RangeBenchmarkData,
    target: &mut RangeBenchmarkData,
    num_working_set: usize,
    epoch_size: usize,
    data_size: usize,
    epoch_per_iteration: usize,
    seed0: u64,
) -> (r: Result<(usize, u64), BenchError>)
    requires
        seed0 < SEED_PRIME,
        num_working_set > 0,
        epoch_per_iteration * epoch_size <= usize::MAX,
        source.src_working_set.shaped(
            num_working_set as int,
            epoch_size as int,
            data_size as int,
        ),
        old(target).dst_working_set.shaped(
            num_working_set as int,
            epoch_size as int,
            data_size as int,
        ),
    ensures
        r is Ok,
        r matches Ok(out) ==> out.0 == epoch_per_iteration * epoch_size && out.1 == spec_seed_at(
            seed0 as int,
            epoch_per_iteration as nat,
        ),
        final(target).dst_working_set.shaped(
            num_working_set as int,
            epoch_size as int,
            data_size as int,
        ),
        final(target).src_working_set == old(target).src_working_set,
        forall|t: int|
            0 <= t < epoch_per_iteration ==> epoch_matches(
                final(target).dst_working_set,
                source.src_working_set,
                #[trigger] spec_selection(seed0 as int, (t + 1) as nat, num_working_set as int),
                epoch_size as int,
            ),
{
    let mut seed = seed0;
    let mut messages: usize = 0;
    let mut e: usize = 0;
    while e < epoch_per_iteration
        invariant
            e <= epoch_per_iteration,
            seed < SEED_PRIME,
            seed == spec_seed_at(seed0 as int, e as nat),
            num_working_set > 0,
            epoch_per_iteration * epoch_size <= usize::MAX,
            messages == e * epoch_size,
            source.src_working_set.shaped(
                num_working_set as int,
                epoch_size as int,
                data_size as int,
            ),
            target.dst_working_set.shaped(
                num_working_set as int,
                epoch_size as int,
                data_size as int,
            ),
            target.src_working_set == old(target).src_working_set,
            forall|t: int|
                0 <= t < e ==> epoch_matches(
                    target.dst_working_set,
                    source.src_working_set,
                    #[trigger] spec_selection(seed0 as int, (t + 1) as nat, num_working_set as int),
                    epoch_size as int,
                ),
        decreases epoch_per_iteration - e,
    {
        seed = next_seed(seed);
        let i = seed as usize % num_working_set;
        let ghost before = target.dst_working_set;
        copy_epoch(&source.src_working_set, &mut target.dst_working_set, i, epoch_size);
        proof {
            assert forall|t: int| 0 <= t < e + 1 implies epoch_matches(
                target.dst_working_set,
                source.src_working_set,
                #[trigger] spec_selection(seed0 as int, (t + 1) as nat, num_working_set as int),
                epoch_size as int,
            ) by {
                let sel = spec_selection(seed0 as int, (t + 1) as nat, num_working_set as int);
                if t < e && sel != i {
                    assert(target.dst_working_set.epoches@[sel] == before.epoches@[sel]);
                }
            }
            assert forall|j: int, b: int|
                0 <= j < num_working_set && 0 <= b < epoch_size implies (
            #[trigger] target.dst_working_set.epoches@[j].data@[b])@.len() == data_size by {
                if j != i {
                    assert(target.dst_working_set.epoches@[j] == before.epoches@[j]);
                }
            }
            assert((e + 1) * epoch_size == e * epoch_size + epoch_size) by (nonlinear_arith);
            assert((e + 1) * epoch_size <= epoch_per_iteration * epoch_size) by (nonlinear_arith)
                requires
                    0 <= e < epoch_per_iteration,
                    0 <= epoch_size,
            ;
        }
        let check = validate_epoch(&source.src_working_set, &target.dst_working_set, i, epoch_size);
        if check.is_err() {
            return Err(BenchError::Mismatch);
        }
        messages = messages + epoch_size;
        e += 1;
    }
    Ok((messages, seed))
}

/// The action dispatch of the steady-state loop, as a function of the
/// configured operation, the participant identity, the current seed and the
/// running count `k` of explicit-sequence steps.  `amount` is the operand
/// of a fetch-add; `cas_expected`/`cas_desired` those of a
/// compare-and-swap.  A barrier step of an explicit sequence performs no
/// communication of its own on either half: the loop's own synchronization
/// points govern, and issuing a barrier from one half only would
/// desynchronize the participants' barrier counts.
pub open spec fn spec_epoch_action(
    op: Operation,
    my_pe: int,
    num_pe: int,
    seed: u64,
    k: int,
    amount: u64,
    cas_expected: u64,
    cas_desired: u64,
) -> Action {
    let nc = num_pe / 2;
    match op {
        Operation::Range(RangeOperation::Put(p)) => if my_pe < nc {
            Action::Put {
                target_pe: (my_pe + nc) as usize,
                blocking: p == PutOperation::Put,
            }
        } else {
            Action::Idle
        },
        Operation::Range(RangeOperation::Get(g)) => if my_pe >= nc {
            Action::Get {
                target_pe: (my_pe - nc) as usize,
                blocking: g == GetOperation::Get,
            }
        } else {
            Action::Idle
        },
        Operation::Range(RangeOperation::PutGet { put_ratio_percent, op_sequence, blocking }) => if my_pe
            < nc {
            match put_ratio_percent {
                Some(ratio) => if seed % 100 < ratio {
                    Action::Put { target_pe: (my_pe + nc) as usize, blocking }
                } else {
                    Action::Get { target_pe: (my_pe + nc) as usize, blocking }
                },
                None => match op_sequence {
                    Some(s) => if s@.len() > 0 {
                        match s@[k % (s@.len() as int)] {
                            OpenShmemOp::Put => Action::Put {
                                target_pe: (my_pe + nc) as usize,
                                blocking,
                            },
                            OpenShmemOp::Get => Action::Get {
                                target_pe: (my_pe + nc) as usize,
                                blocking,
                            },
                            OpenShmemOp::Barrier => Action::Idle,
                            OpenShmemOp::Fence => Action::Fence,
                        }
                    } else {
                        Action::Idle
                    },
                    None => Action::Idle,
                },
            }
        } else {
            Action::Idle
        },
        Operation::Range(RangeOperation::Broadcast(b)) => {
            let BroadcastOperation::Broadcast = b;
            Action::Broadcast { root_pe: 0 }
        },
        Operation::Range(RangeOperation::AllToAll) => Action::AllToAll,
        Operation::Atomic { op: a, use_different_location } => {
            let target_pe = if use_different_location {
                (my_pe % nc) as usize
            } else {
                0
            };
            match a {
                AtomicOperation::FetchAdd32 => Action::FetchAdd32 {
                    target_pe,
                    value: (amount % 0x1_0000_0000) as u32,
                },
                AtomicOperation::FetchAdd64 => Action::FetchAdd64 { target_pe, value: amount },
                AtomicOperation::CompareAndSwap32 => Action::CompareAndSwap32 {
                    target_pe,
                    expected: (cas_expected % 0x1_0000_0000) as u32,
                    desired: (cas_desired % 0x1_0000_0000) as u32,
                },
                AtomicOperation::CompareAndSwap64 => Action::CompareAndSwap64 {
                    target_pe,
                    expected: cas_expected,
                    desired: cas_desired,
                },
            }
        },
    }
}

/// Barrier calls one participant issues in one outer iteration of the
/// steady-state loop: one at the loop top (where the shutdown flag is
/// checked), then one after each of the `epoch_per_iteration` epochs.
/// Dispatched actions never add to this count — a barrier step of an
/// explicit sequence is a no-communication step — so the count does not
/// depend on the participant's rank or role.
pub open spec fn spec_iteration_barriers(epoch_per_iteration: int, my_pe: int) -> int {
    1 + epoch_per_iteration
}

/// Every participant issues the same number of barrier calls per outer
/// iteration, whatever its rank: the count is a function of the
/// configuration alone, so no participant is left waiting at a barrier the
/// others skipped.
pub proof fn lemma_barrier_count_uniform(epoch_per_iteration: int, pe_a: int, pe_b: int)
    ensures
        spec_iteration_barriers(epoch_per_iteration, pe_a) == spec_iteration_barriers(
            epoch_per_iteration,
            pe_b,
        ),
{
}

/// The number of barrier calls of one outer iteration, for the driver's
/// accounting.
pub fn iteration_barrier_count(epoch_per_iteration: usize, my_pe: usize) -> (r: usize)
    requires
        epoch_per_iteration < usize::MAX,
    ensures
        r == spec_iteration_barriers(epoch_per_iteration as int, my_pe as int),
{
    1 + epoch_per_iteration
}

/// The ranks into whose shared `running` flag rank 0 issues a non-blocking
/// put of `false` when it observes local shutdown intent: every rank, its
/// own included.  Any other rank, or a rank whose local flag is still set,
/// sends nothing — only the coordinating rank may stop the others, and only
/// through this communication step.
pub fn shutdown_targets(local_running: bool, my_pe: usize, num_pe: usize) -> (r: Vec<usize>)
    ensures
        local_running || my_pe != 0 ==> r@.len() == 0,
        !local_running && my_pe == 0 ==> r@.len() == num_pe && forall|i: int|
            0 <= i < num_pe ==> #[trigger] r@[i] == i,
{
    let mut targets: Vec<usize> = Vec::new();
    if !local_running && my_pe == 0 {
        let mut i: usize = 0;
        while i < num_pe
            invariant
                i <= num_pe,
                targets@.len() == i,
                forall|j: int| 0 <= j < i ==> #[trigger] targets@[j] == j,
            decreases num_pe - i,
        {
            targets.push(i);
            i += 1;
        }
    }
    targets
}

/// The state of every participant's shared `running` flag once rank 0's
/// shutdown puts have drained (at the latest at the next barrier): each
/// flag that was a put target holds `false`, every other flag is
/// untouched.  When rank 0 observed shutdown intent this clears every
/// flag, so each participant reads `false` at its next loop-top check and
/// exits within one iteration.
pub fn signal_shutdown(flags: &mut Vec<bool>, local_running: bool, my_pe: usize)
    requires
        my_pe < old(flags)@.len(),
    ensures
        final(flags)@.len() == old(flags)@.len(),
        !local_running && my_pe == 0 ==> forall|p: int|
            0 <= p < final(flags)@.len() ==> !(#[trigger] final(flags)@[p]),
        local_running || my_pe != 0 ==> final(flags)@ == old(flags)@,
{
    let num_pe = flags.len();
    let targets = shutdown_targets(local_running, my_pe, num_pe);
    let mut t: usize = 0;
    while t < targets.len()
        invariant
            t <= targets@.len(),
            flags@.len() == old(flags)@.len(),
            forall|j: int| 0 <= j < targets@.len() ==> 0 <= #[trigger] targets@[j] < flags@.len(),
            forall|j: int| 0 <= j < t ==> !(#[trigger] flags@[targets@[j] as int]),
            targets@.len() == 0 ==> flags@ == old(flags)@,
        decreases targets@.len() - t,
    {
        let p = targets[t];
        flags.set(p, false);
        proof {
            assert forall|j: int| 0 <= j < t + 1 implies !(#[trigger] flags@[targets@[j] as int]) by {
                if targets@[j] == p as int {
                } else {
                }
            }
        }
        t += 1;
    }
    proof {
        if !local_running && my_pe == 0 {
            assert forall|p: int| 0 <= p < flags@.len() implies !(#[trigger] flags@[p]) by {
                assert(targets@[p] == p);
                assert(!flags@[targets@[p] as int]);
            }
        }
    }
}

/// A blocking put between paired participants followed by validation after
/// the synchronization point.  For every source content and every payload
/// length, validation succeeds: the destination is byte-for-byte the
/// source.
pub fn exchange_and_validate(src: &ShVec<u8>, dst: &mut ShVec<u8>) -> (r: Result<(), BenchError>)
    requires
        src@.len() == old(dst)@.len(),
    ensures
        r is Ok,
        final(dst)@ == src@,
{
    src.slice().put_to(dst.slice_mut());
    validate_buffer(src, dst)
}

/// Messages one initiator issues in one outer iteration: every epoch sends
/// every buffer once.  `None` when the product does not fit the machine
/// word.
pub fn total_messages(epoch_per_iteration: usize, epoch_size: usize) -> (r: Option<usize>)
    ensures
        r is Some <==> epoch_per_iteration * epoch_size <= usize::MAX,
        r matches Some(n) ==> n == epoch_per_iteration * epoch_size,
{
    epoch_per_iteration.checked_mul(epoch_size)
}

/// Whether this participant contributes its measured result to the
/// rank-0 report for the given operation: the half that drove the
/// operation reports (for a get that is the upper half), for a broadcast
/// only the root — the one participant whose data is meaningful input —
/// and for atomics every participant.
pub fn reports_result(op: &Operation, my_pe: usize, num_concurrency: usize) -> (r: bool)
    ensures
        r == match *op {
            Operation::Range(RangeOperation::Get(_)) => my_pe >= num_concurrency,
            Operation::Range(RangeOperation::Broadcast(_)) => my_pe == 0,
            Operation::Range(_) => my_pe < num_concurrency,
            Operation::Atomic { .. } => true,
        },
{
    match op {
        Operation::Range(RangeOperation::Get(_)) => my_pe >= num_concurrency,
        Operation::Range(RangeOperation::Broadcast(_)) => my_pe == 0,
        Operation::Range(_) => my_pe < num_concurrency,
        Operation::Atomic { .. } => true,
    }
}

/// Whether this participant validates the exchanged bytes after the
/// synchronization point: the half that holds the freshly written
/// destination.  For a put that is the passive upper half; for a get the
/// roles invert, so it is again the upper half — the getter itself, which
/// filled its own destination.  No other operation kind is validated by
/// byte comparison.
pub fn validation_role(op: &Operation, my_pe: usize, num_concurrency: usize) -> (r: bool)
    ensures
        r == match *op {
            Operation::Range(RangeOperation::Put(_)) => my_pe >= num_concurrency,
            Operation::Range(RangeOperation::Get(_)) => my_pe >= num_concurrency,
            _ => false,
        },
{
    match op {
        Operation::Range(RangeOperation::Put(_)) => my_pe >= num_concurrency,
        Operation::Range(RangeOperation::Get(_)) => my_pe >= num_concurrency,
        _ => false,
    }
}

/// Computes the action of one loop step; the restriction to the active role
/// and the pairing `rank <-> rank + N/2` follow the dispatch spec exactly.
pub fn epoch_action(
    op: &Operation,
    my_pe: usize,
    num_pe: usize,
    seed: u64,
    k: usize,
    amount: u64,
    cas_expected: u64,
    cas_desired: u64,
) -> (r: Action)
    requires
        my_pe < num_pe,
        num_pe % 2 == 0,
        num_pe >= 2,
    ensures
        r == spec_epoch_action(
            *op,
            my_pe as int,
            num_pe as int,
            seed,
            k as int,
            amount,
            cas_expected,
            cas_desired,
        ),
{
    let nc = num_pe / 2;
    match op {
        Operation::Range(RangeOperation::Put(p)) => {
            if my_pe < nc {
                Action::Put { target_pe: my_pe + nc, blocking: *p == PutOperation::Put }
            } else {
                Action::Idle
            }
        },
        Operation::Range(RangeOperation::Get(g)) => {
            if my_pe >= nc {
                Action::Get { target_pe: my_pe - nc, blocking: *g == GetOperation::Get }
            } else {
                Action::Idle
            }
        },
        Operation::Range(RangeOperation::PutGet { put_ratio_percent, op_sequence, blocking }) => {
            if my_pe < nc {
                if let Some(ratio) = put_ratio_percent {
                    if seed % 100 < *ratio {
                        Action::Put { target_pe: my_pe + nc, blocking: *blocking }
                    } else {
                        Action::Get { target_pe: my_pe + nc, blocking: *blocking }
                    }
                } else if let Some(s) = op_sequence {
                    if s.len() > 0 {
                        match s[k % s.len()] {
                            OpenShmemOp::Put => Action::Put {
                                target_pe: my_pe + nc,
                                blocking: *blocking,
                            },
                            OpenShmemOp::Get => Action::Get {
                                target_pe: my_pe + nc,
                                blocking: *blocking,
                            },
                            OpenShmemOp::Barrier => Action::Idle,
                            OpenShmemOp::Fence => Action::Fence,
                        }
                    } else {
                        Action::Idle
                    }
                } else {
                    Action::Idle
                }
            } else {
                Action::Idle
            }
        },
        Operation::Range(RangeOperation::Broadcast(_)) => Action::Broadcast { root_pe: 0 },
        Operation::Range(RangeOperation::AllToAll) => Action::AllToAll,
        Operation::Atomic { op: a, use_different_location } => {
            let target_pe = if *use_different_location {
                my_pe % nc
            } else {
                0
            };
            match a {
                AtomicOperation::FetchAdd32 => Action::FetchAdd32 {
                    target_pe,
                    value: (amount % 0x1_0000_0000) as u32,
                },
                AtomicOperation::FetchAdd64 => Action::FetchAdd64 { target_pe, value: amount },
                AtomicOperation::CompareAndSwap32 => Action::CompareAndSwap32 {
                    target_pe,
                    expected: (cas_expected % 0x1_0000_0000) as u32,
                    desired: (cas_desired % 0x1_0000_0000) as u32,
                },
                AtomicOperation::CompareAndSwap64 => Action::CompareAndSwap64 {
                    target_pe,
                    expected: cas_expected,
                    desired: cas_desired,
                },
            }
        },
    }
}

} // verus!
