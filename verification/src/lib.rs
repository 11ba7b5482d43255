//! Verified core of a benchmark driver for a partitioned-global-address-space
//! (PGAS) communication substrate.
//!
//! A fixed set of cooperating participants ("PEs") share a conceptually
//! symmetric heap and exchange data through one-sided operations (put/get),
//! atomics and collectives.  This crate holds the parts of that system that
//! are pure logic: the symmetric-allocator model, the owning container types,
//! the workload layout, the decision core of the benchmark loops (role
//! partitioning, pseudo-random working-set selection, cooperative shutdown)
//! and the trace-replay planner.  The communication runtime itself (network
//! transport, process launch, wall-clock timing) stays outside, in an
//! unverified driver that executes the plans produced here.

use vstd::prelude::*;

pub mod benchmark_loop;
pub mod execution;
pub mod layout;
pub mod operations;
pub mod ops;
pub mod osm_alloc;
pub mod osm_arc;
pub mod osm_box;
pub mod osm_scope;
pub mod osm_slice;
pub mod osm_team;
pub mod osm_vec;
pub mod osm_wrapper;
pub mod shalloc;

verus! {

/// Errors of the benchmark core.
///
/// Configuration errors (`OddParticipants`, `InvalidOperandSize`,
/// `MissingPutGetChoice`) are detected at startup or first use and are fatal.
/// `AllocationFailed` reports symmetric-heap exhaustion.  `Mismatch` reports a
/// correctness-validation failure: destination bytes differ from the expected
/// source bytes after a synchronization point.  `EmptyTrace` reports a trace
/// with no records, rejected at load time.
#[derive(Clone, Copy, Debug, PartialEq, Eq, Structural)]
pub enum BenchError {
    /// Role partitioning needs an even participant count.
    OddParticipants,
    /// An atomic verb was aimed at a region that is not exactly 4 or 8 bytes.
    InvalidOperandSize,
    /// A put/get mix was requested with neither a ratio nor an explicit
    /// operation sequence.
    MissingPutGetChoice,
    /// The symmetric heap could not satisfy an allocation request.
    AllocationFailed,
    /// Validation found a byte that differs between source and destination.
    Mismatch,
    /// A replay trace holds no records.
    EmptyTrace,
    /// A trace record names a rank outside the job.
    InvalidRank,
}

/// The diagnostic text of each error.
pub open spec fn spec_message(e: BenchError) -> Seq<char> {
    match e {
        BenchError::OddParticipants => "number of participants must be even"@,
        BenchError::InvalidOperandSize => "atomic operation requires a 4 or 8 byte operand"@,
        BenchError::MissingPutGetChoice => "put/get mix requires a ratio or an operation sequence"@,
        BenchError::AllocationFailed => "symmetric heap allocation failed"@,
        BenchError::Mismatch => "destination bytes differ from source bytes"@,
        BenchError::EmptyTrace => "trace holds no records"@,
        BenchError::InvalidRank => "trace record names a rank outside the job"@,
    }
}

impl BenchError {
    /// The short diagnostic text of this error, for the unverified driver
    /// to print before terminating.
    pub fn message(&self) -> (r: String)
        ensures
            r@ == spec_message(*self),
    {
        let r = match self {
            BenchError::OddParticipants => "number of participants must be even",
            BenchError::InvalidOperandSize => "atomic operation requires a 4 or 8 byte operand",
            BenchError::MissingPutGetChoice => "put/get mix requires a ratio or an operation sequence",
            BenchError::AllocationFailed => "symmetric heap allocation failed",
            BenchError::Mismatch => "destination bytes differ from source bytes",
            BenchError::EmptyTrace => "trace holds no records",
            BenchError::InvalidRank => "trace record names a rank outside the job",
        };
        r.to_string()
    }
}

} // verus!
