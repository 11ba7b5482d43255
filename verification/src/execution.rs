//! Decision core of the trace-replay engine.
//!
//! The replay engine takes an ordered sequence of abstract operation
//! records, sizes two buffers to the largest transfer in the trace (capped
//! to bound memory), splits the participants into initiators (lower half)
//! and passive counterparts (upper half, which only execute the genuinely
//! collective kinds), and replays the sequence.  The functions here decide
//! all of that — buffer sizing, role split, the action each record maps to
//! and the operation count a replay contributes — as pure functions; the
//! unverified driver executes the verbs and owns the clock and the repeat
//! loop that accumulates trials until the minimum measurement duration is
//! reached.

use vstd::prelude::*;

use crate::BenchError;
use crate::benchmark_loop::Action;
use crate::operations::Operation;
use crate::operations::OperationType;
use crate::osm_slice::spec_chunk_count;
use crate::osm_slice::chunk_count;

verus! {

/// Ceiling on the replay buffers, in bytes, to bound memory however large
/// the trace's transfers are.
pub const MAX_TRACE_BYTES: u64 = 17_179_869_184;

/// The largest transfer size in a trace.
pub open spec fn spec_max_size(s: Seq<Operation>) -> int
    decreases s.len(),
{
    if s.len() == 0 {
        0
    } else {
        let rest = spec_max_size(s.drop_last());
        if s.last().size > rest {
            s.last().size as int
        } else {
            rest
        }
    }
}

/// The replay buffer size: the largest transfer in the trace, capped at
/// `MAX_TRACE_BYTES`.  A trace with no records is rejected here, at load
/// time, before any collective operation begins.
pub fn max_data_size(ops: &Vec<Operation>) -> (r: Result<usize, BenchError>)
    ensures
        r is Ok <==> ops@.len() > 0,
        r matches Ok(n) ==> n == if spec_max_size(ops@) <= MAX_TRACE_BYTES {
            spec_max_size(ops@)
        } else {
            MAX_TRACE_BYTES as int
        },
        r is Err ==> r == Err::<usize, BenchError>(BenchError::EmptyTrace),
{
    if ops.len() == 0 {
        return Err(BenchError::EmptyTrace);
    }
    let mut best: usize = 0;
    let mut i: usize = 0;
    while i < ops.len()
        invariant
            i <= ops@.len(),
            best == spec_max_size(ops@.take(i as int)),
        decreases ops@.len() - i,
    {
        proof {
            assert(ops@.take(i + 1).drop_last() =~= ops@.take(i as int));
        }
        let size = ops[i].size;
        if size > best {
            best = size;
        }
        i += 1;
    }
    proof {
        assert(ops@.take(ops@.len() as int) =~= ops@);
    }
    if best as u64 <= MAX_TRACE_BYTES {
        Ok(best)
    } else {
        Ok(MAX_TRACE_BYTES as usize)
    }
}

/// The two replay buffer lengths: the source holds one transfer, the
/// destination holds one slot per initiator/target pair on both sides.
/// `None` when the destination size does not fit the machine word.
pub fn buffer_lens(max_data: usize, num_pes: usize) -> (r: Option<(usize, usize)>)
    ensures
        r is Some <==> max_data * (num_pes / 2) * 2 <= usize::MAX,
        r matches Some(p) ==> p.0 == max_data && p.1 == max_data * (num_pes / 2) * 2,
{
    match max_data.checked_mul(num_pes / 2) {
        Some(half_total) => match half_total.checked_mul(2) {
            Some(dst_len) => Some((max_data, dst_len)),
            None => None,
        },
        None => None,
    }
}

/// Whether a record's explicit ranks, where present, name ranks of the
/// job.  A record that names an outside rank is rejected at load time.
pub open spec fn spec_record_valid(op: Operation, num_pes: int) -> bool {
    &&& (op.src matches Some(s) ==> 0 <= s < num_pes)
    &&& (op.dst matches Some(d) ==> 0 <= d < num_pes)
}

/// Whether this participant issues the record's one-sided verb: the
/// explicit source rank if the record names one, else the lower half.
pub open spec fn spec_record_issuer(op: Operation, my_pe: int, num_pes: int) -> bool {
    match op.src {
        Some(s) => my_pe == s,
        None => my_pe < num_pes / 2,
    }
}

/// The rank a one-sided verb of the record aims at for this issuer: the
/// explicit destination rank if the record names one, else the issuer's
/// derived pair.
pub open spec fn spec_record_target(op: Operation, my_pe: int, num_pes: int) -> int {
    match op.dst {
        Some(d) => d as int,
        None => if my_pe < num_pes / 2 {
            my_pe + num_pes / 2
        } else {
            my_pe - num_pes / 2
        },
    }
}

/// The action one trace record maps to for one participant.  A record's
/// explicit source rank names the one issuer and its explicit destination
/// rank overrides the derived pairing; absent both, the lower half issues
/// toward `rank + N/2`.  Every participant executes the genuinely
/// collective kinds.  A barrier record performs no communication on any
/// participant: executing it from some participants only would leave the
/// job with unequal barrier counts and hang it, so the replay's own
/// synchronization points govern.
pub open spec fn spec_trace_action(op: Operation, my_pe: int, num_pes: int) -> Action {
    let target = spec_record_target(op, my_pe, num_pes) as usize;
    if spec_record_issuer(op, my_pe, num_pes) {
        match op.op_type {
            OperationType::Put => Action::Put { target_pe: target, blocking: true },
            OperationType::PutNonBlocking => Action::Put { target_pe: target, blocking: false },
            OperationType::Get => Action::Get { target_pe: target, blocking: true },
            OperationType::GetNonBlocking => Action::Get { target_pe: target, blocking: false },
            OperationType::Barrier => Action::Idle,
            OperationType::Fence => Action::Fence,
            OperationType::FetchAdd32 => Action::FetchAdd32 { target_pe: target, value: 1 },
            OperationType::FetchAdd64 => Action::FetchAdd64 { target_pe: target, value: 1 },
            OperationType::CompareAndSwap32 => Action::CompareAndSwap32 {
                target_pe: target,
                expected: 1,
                desired: 1,
            },
            OperationType::CompareAndSwap64 => Action::CompareAndSwap64 {
                target_pe: target,
                expected: 1,
                desired: 1,
            },
            OperationType::AllToAll => Action::AllToAll,
            OperationType::AllReduce => Action::AllReduce,
            OperationType::AllGather => Action::AllGather,
            OperationType::Idle => Action::Idle,
        }
    } else {
        match op.op_type {
            OperationType::AllToAll => Action::AllToAll,
            OperationType::AllReduce => Action::AllReduce,
            OperationType::AllGather => Action::AllGather,
            _ => Action::Idle,
        }
    }
}

/// Rejects, before any collective operation begins, a trace with a record
/// that names a rank outside the job.
pub fn validate_trace(ops: &Vec<Operation>, num_pes: usize) -> (r: Result<(), BenchError>)
    ensures
        r is Ok <==> forall|i: int|
            0 <= i < ops@.len() ==> spec_record_valid(#[trigger] ops@[i], num_pes as int),
        r is Err ==> r == Err::<(), BenchError>(BenchError::InvalidRank),
{
    let mut i: usize = 0;
    while i < ops.len()
        invariant
            i <= ops@.len(),
            forall|j: int| 0 <= j < i ==> spec_record_valid(#[trigger] ops@[j], num_pes as int),
        decreases ops@.len() - i,
    {
        let op = ops[i];
        let src_ok = match op.src {
            Some(s) => s >= 0 && (s as usize) < num_pes,
            None => true,
        };
        let dst_ok = match op.dst {
            Some(d) => d >= 0 && (d as usize) < num_pes,
            None => true,
        };
        if !src_ok || !dst_ok {
            return Err(BenchError::InvalidRank);
        }
        i += 1;
    }
    Ok(())
}

/// Computes the action of one trace record for this participant; the
/// record must have passed `validate_trace`.
pub fn trace_action(op: &Operation, my_pe: usize, num_pes: usize) -> (r: Action)
    requires
        my_pe < num_pes,
        num_pes % 2 == 0,
        num_pes >= 2,
        spec_record_valid(*op, num_pes as int),
    ensures
        r == spec_trace_action(*op, my_pe as int, num_pes as int),
{
    let half = num_pes / 2;
    let issuer = match op.src {
        Some(s) => my_pe == s as usize && s >= 0,
        None => my_pe < half,
    };
    let target = match op.dst {
        Some(d) => d as usize,
        None => if my_pe < half {
            my_pe + half
        } else {
            my_pe - half
        },
    };
    if issuer {
        match op.op_type {
            OperationType::Put => Action::Put { target_pe: target, blocking: true },
            OperationType::PutNonBlocking => Action::Put { target_pe: target, blocking: false },
            OperationType::Get => Action::Get { target_pe: target, blocking: true },
            OperationType::GetNonBlocking => Action::Get { target_pe: target, blocking: false },
            OperationType::Barrier => Action::Idle,
            OperationType::Fence => Action::Fence,
            OperationType::FetchAdd32 => Action::FetchAdd32 { target_pe: target, value: 1 },
            OperationType::FetchAdd64 => Action::FetchAdd64 { target_pe: target, value: 1 },
            OperationType::CompareAndSwap32 => Action::CompareAndSwap32 {
                target_pe: target,
                expected: 1,
                desired: 1,
            },
            OperationType::CompareAndSwap64 => Action::CompareAndSwap64 {
                target_pe: target,
                expected: 1,
                desired: 1,
            },
            OperationType::AllToAll => Action::AllToAll,
            OperationType::AllReduce => Action::AllReduce,
            OperationType::AllGather => Action::AllGather,
            OperationType::Idle => Action::Idle,
        }
    } else {
        match op.op_type {
            OperationType::AllToAll => Action::AllToAll,
            OperationType::AllReduce => Action::AllReduce,
            OperationType::AllGather => Action::AllGather,
            _ => Action::Idle,
        }
    }
}

/// How many point-to-point operations one record contributes to the
/// replay's accounting: one for each one-sided transfer this participant
/// issues, one for a native collective, the chunk count per other
/// participant for the collectives realized as chunked puts (the lower
/// half sends the capped transfer prefix, the upper half its whole replay
/// buffer), and nothing for atomics, ordering and idle steps.
pub open spec fn spec_record_ops(op: Operation, my_pe: int, num_pes: int, cap: int) -> int {
    let issuer = spec_record_issuer(op, my_pe, num_pes);
    let collective_len = if my_pe < num_pes / 2 {
        if op.size <= cap {
            op.size as int
        } else {
            cap
        }
    } else {
        cap
    };
    match op.op_type {
        OperationType::Put => if issuer {
            1
        } else {
            0
        },
        OperationType::PutNonBlocking => if issuer {
            1
        } else {
            0
        },
        OperationType::Get => if issuer {
            1
        } else {
            0
        },
        OperationType::GetNonBlocking => if issuer {
            1
        } else {
            0
        },
        OperationType::AllToAll => 1,
        OperationType::AllGather => (num_pes - 1) * spec_chunk_count(collective_len),
        OperationType::AllReduce => (num_pes - 1) * spec_chunk_count(collective_len),
        _ => 0,
    }
}

/// The operation count a full replay of the trace contributes for one
/// participant.
pub open spec fn spec_trace_ops(s: Seq<Operation>, my_pe: int, num_pes: int, cap: int) -> int
    decreases s.len(),
{
    if s.len() == 0 {
        0
    } else {
        spec_trace_ops(s.drop_last(), my_pe, num_pes, cap) + spec_record_ops(
            s.last(),
            my_pe,
            num_pes,
            cap,
        )
    }
}

/// Every record contributes a non-negative count.
proof fn lemma_record_ops_nonneg(op: Operation, my_pe: int, num_pes: int, cap: int)
    requires
        num_pes >= 1,
        cap >= 0,
    ensures
        spec_record_ops(op, my_pe, num_pes, cap) >= 0,
{
}

/// The whole trace contributes a non-negative count.
proof fn lemma_trace_ops_nonneg(s: Seq<Operation>, my_pe: int, num_pes: int, cap: int)
    requires
        num_pes >= 1,
        cap >= 0,
    ensures
        spec_trace_ops(s, my_pe, num_pes, cap) >= 0,
    decreases s.len(),
{
    if s.len() > 0 {
        lemma_trace_ops_nonneg(s.drop_last(), my_pe, num_pes, cap);
        lemma_record_ops_nonneg(s.last(), my_pe, num_pes, cap);
    }
}

/// A prefix of the trace never counts more than the whole trace.
proof fn lemma_trace_ops_prefix(s: Seq<Operation>, i: int, my_pe: int, num_pes: int, cap: int)
    requires
        0 <= i <= s.len(),
        num_pes >= 1,
        cap >= 0,
    ensures
        spec_trace_ops(s.take(i), my_pe, num_pes, cap) <= spec_trace_ops(s, my_pe, num_pes, cap),
    decreases s.len() - i,
{
    if i == s.len() {
        assert(s.take(i) =~= s);
    } else {
        assert(s.take(i + 1).drop_last() =~= s.take(i));
        assert(s.take(i + 1).last() == s[i]);
        lemma_record_ops_nonneg(s[i], my_pe, num_pes, cap);
        lemma_trace_ops_prefix(s, i + 1, my_pe, num_pes, cap);
    }
}

/// Minimum aggregate measurement duration, in nanoseconds: the replay
/// repeats whole-trace trials until this much time has accumulated.
pub const MIN_MEASURE_NANOS: u128 = 10_000_000_000;

/// Whether the replay needs another trial: the aggregate elapsed time has
/// not yet reached the minimum measurement duration.
pub fn needs_another_trial(total_elapsed_nanos: u128) -> (r: bool)
    ensures
        r <==> total_elapsed_nanos < MIN_MEASURE_NANOS,
{
    total_elapsed_nanos < MIN_MEASURE_NANOS
}

/// The byte count one replayed transfer actually moves: the record's size,
/// capped at the replay buffer size.
pub fn capped_size(size: usize, cap: usize) -> (r: usize)
    ensures
        r == if size <= cap {
            size as int
        } else {
            cap as int
        },
{
    if size <= cap {
        size
    } else {
        cap
    }
}

/// Whether the replay emits a progress diagnostic: enough operations have
/// completed since the last one.
pub fn emits_progress(num_ops: usize, last_printed: usize) -> (r: bool)
    requires
        last_printed <= num_ops,
    ensures
        r <==> num_ops - last_printed > 2,
{
    num_ops - last_printed > 2
}

/// Counts the point-to-point operations one replayed record contributes
/// for this participant, for the running total behind the periodic
/// progress diagnostics.
pub fn record_op_count(op: &Operation, my_pe: usize, num_pes: usize, cap: usize) -> (r: usize)
    requires
        my_pe < num_pes,
        num_pes % 2 == 0,
        num_pes >= 2,
        spec_record_ops(*op, my_pe as int, num_pes as int, cap as int) <= usize::MAX,
    ensures
        r == spec_record_ops(*op, my_pe as int, num_pes as int, cap as int),
{
    let half = num_pes / 2;
    let issuer = match op.src {
        Some(s) => my_pe == s as usize && s >= 0,
        None => my_pe < half,
    };
    let collective_len = if my_pe < half {
        if op.size <= cap {
            op.size
        } else {
            cap
        }
    } else {
        cap
    };
    match op.op_type {
        OperationType::Put
        | OperationType::PutNonBlocking
        | OperationType::Get
        | OperationType::GetNonBlocking => {
            if issuer {
                1
            } else {
                0
            }
        },
        OperationType::AllToAll => 1,
        OperationType::AllGather | OperationType::AllReduce => {
            let c = chunk_count(collective_len);
            (num_pes - 1) * c
        },
        _ => 0,
    }
}

/// Counts the point-to-point operations one full replay of the trace
/// issues for this participant; this is what normalizes the reported
/// operations per second.
pub fn trace_op_count(ops: &Vec<Operation>, my_pe: usize, num_pes: usize, cap: usize) -> (r: usize)
    requires
        my_pe < num_pes,
        num_pes % 2 == 0,
        num_pes >= 2,
        spec_trace_ops(ops@, my_pe as int, num_pes as int, cap as int) <= usize::MAX,
    ensures
        r == spec_trace_ops(ops@, my_pe as int, num_pes as int, cap as int),
{
    let ghost gpe = my_pe as int;
    let ghost gnp = num_pes as int;
    let ghost gcap = cap as int;
    let half = num_pes / 2;
    let mut total: usize = 0;
    let mut i: usize = 0;
    while i < ops.len()
        invariant
            i <= ops@.len(),
            my_pe < num_pes,
            num_pes >= 2,
            half == num_pes / 2,
            gpe == my_pe as int,
            gnp == num_pes as int,
            gcap == cap as int,
            spec_trace_ops(ops@, gpe, gnp, gcap) <= usize::MAX,
            total == spec_trace_ops(ops@.take(i as int), gpe, gnp, gcap),
        decreases ops@.len() - i,
    {
        proof {
            assert(ops@.take(i + 1).drop_last() =~= ops@.take(i as int));
            assert(ops@.take(i + 1).last() == ops@[i as int]);
            lemma_trace_ops_prefix(ops@, i + 1, gpe, gnp, gcap);
            lemma_trace_ops_nonneg(ops@.take(i as int), gpe, gnp, gcap);
            lemma_record_ops_nonneg(ops@[i as int], gpe, gnp, gcap);
        }
        let op = ops[i];
        let issuer = match op.src {
            Some(s) => my_pe == s as usize && s >= 0,
            None => my_pe < half,
        };
        let collective_len = if my_pe < half {
            if op.size <= cap {
                op.size
            } else {
                cap
            }
        } else {
            cap
        };
        let term: usize = match op.op_type {
            OperationType::Put
            | OperationType::PutNonBlocking
            | OperationType::Get
            | OperationType::GetNonBlocking => {
                if issuer {
                    1
                } else {
                    0
                }
            },
            OperationType::AllToAll => 1,
            OperationType::AllGather | OperationType::AllReduce => {
                let c = chunk_count(collective_len);
                (num_pes - 1) * c
            },
            _ => 0,
        };
        total = total + term;
        i += 1;
    }
    proof {
        assert(ops@.take(ops@.len() as int) =~= ops@);
    }
    total
}

} // verus!
