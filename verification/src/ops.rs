//! The operation kinds a benchmark run can be configured with.
//!
//! A `Range` operation moves whole epoch buffers between paired
//! participants; an `Atomic` operation targets a single shared cell.  The
//! put/get mix is driven either by a ratio (how many of every hundred inner
//! iterations issue a put) or by an explicit operation sequence, replayed
//! cyclically.

use vstd::prelude::*;

verus! {

/// A single step kind of an explicit put/get mix sequence.
#[derive(Clone, Copy, Debug, PartialEq, Eq, Structural)]
pub enum OpenShmemOp {
    Put,
    Get,
    Barrier,
    Fence,
}

/// The one-to-many replication operation.
#[derive(Clone, Copy, Debug, PartialEq, Eq, Structural)]
pub enum BroadcastOperation {
    Broadcast,
}

/// Blocking or non-blocking put.
#[derive(Clone, Copy, Debug, PartialEq, Eq, Structural)]
pub enum PutOperation {
    Put,
    PutNonBlocking,
}

/// Blocking or non-blocking get.
#[derive(Clone, Copy, Debug, PartialEq, Eq, Structural)]
pub enum GetOperation {
    Get,
    GetNonBlocking,
}

/// Blocking or non-blocking put/get mix.
#[derive(Clone, Copy, Debug, PartialEq, Eq, Structural)]
pub enum PutGetOperation {
    PutGet,
    PutGetNonBlocking,
}

/// The atomic verbs; the operand is the 4- or 8-byte cell they act on.
#[derive(Clone, Copy, Debug, PartialEq, Eq, Structural)]
pub enum AtomicOperation {
    FetchAdd32,
    FetchAdd64,
    CompareAndSwap32,
    CompareAndSwap64,
}

/// The buffer-moving operations.
///
/// For a put/get mix, `put_ratio_percent` gives how many of every hundred
/// selections issue a put (the rest issue a get); alternatively
/// `op_sequence` replays an explicit sequence cyclically.  Exactly one of
/// the two must be present; startup rejects a mix with neither.
#[derive(Clone, Debug)]
pub enum RangeOperation {
    Put(PutOperation),
    Get(GetOperation),
    PutGet { put_ratio_percent: Option<u64>, op_sequence: Option<Vec<OpenShmemOp>>, blocking: bool },
    Broadcast(BroadcastOperation),
    AllToAll,
}

/// The configured operation of a benchmark run.
///
/// For atomics, `use_different_location` spreads the targets over the lower
/// half of the participants instead of aiming every caller at rank 0.
#[derive(Clone, Debug)]
pub enum Operation {
    Range(RangeOperation),
    Atomic { op: AtomicOperation, use_different_location: bool },
}

} // verus!
