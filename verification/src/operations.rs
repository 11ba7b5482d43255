//! The abstract operation records a replay trace is made of.
//!
//! A trace row names an operation kind, a byte size, and optionally an
//! explicit source and destination rank; absent ranks default to the
//! derived pairing `rank <-> rank + N/2`.  Parsing the tabular trace file
//! into these records is the unverified driver's job and happens before
//! any collective operation begins, so a malformed trace fails the run
//! before it could deadlock a half-started job.

use vstd::prelude::*;

verus! {

/// The kind of one replayed operation.
#[derive(Clone, Copy, Debug, PartialEq, Eq, Structural)]
pub enum OperationType {
    Put,
    PutNonBlocking,
    Get,
    GetNonBlocking,
    Barrier,
    Fence,
    FetchAdd32,
    FetchAdd64,
    CompareAndSwap32,
    CompareAndSwap64,
    AllToAll,
    AllReduce,
    AllGather,
    Idle,
}

/// One record of a replay trace.
///
/// An explicit source rank names the one participant that issues the
/// record; an explicit destination rank overrides the derived pairing as
/// its target.  Either may be absent, in which case the lower half issues
/// and the pairing `rank <-> rank + N/2` aims the verb.
#[derive(Clone, Copy, Debug, PartialEq, Eq, Structural)]
pub struct Operation {
    /// The operation kind.
    pub op_type: OperationType,
    /// The transfer size in bytes.
    pub size: usize,
    /// Explicit source (issuing) rank, if the trace names one.
    pub src: Option<i32>,
    /// Explicit destination (target) rank, if the trace names one.
    pub dst: Option<i32>,
}

} // verus!
