//! Same-process shared ownership of a single symmetric allocation.
//!
//! Sharing is purely local bookkeeping: the backing address remains a single
//! valid one-sided target visible to every participant, and only the local
//! free/retain logic is reference-counted.  The reference count itself lives
//! in the unverified runtime; the model keeps the single backing cell, which
//! is released exactly once however many local holders existed.

use vstd::prelude::*;

use crate::osm_scope::OsmScope;
use crate::osm_wrapper::OsmWrapper;

verus! {

/// A locally shared single value in symmetric memory.
pub struct OsmArc<T> {
    pub cell: OsmWrapper<T>,
}

impl<T: Copy> OsmArc<T> {
    /// Allocates the shared value in `scope`'s symmetric heap.
    pub fn new(data: T, _scope: &OsmScope) -> (r: OsmArc<T>)
        ensures
            r.cell.data == data,
    {
        OsmArc { cell: OsmWrapper { data } }
    }

    /// The single-cell communication view over the shared value.
    pub fn cell(&self) -> (r: &OsmWrapper<T>)
        ensures
            r.data == self.cell.data,
    {
        &self.cell
    }

    /// Reads the shared value.
    pub fn load(&self) -> (r: T)
        ensures
            r == self.cell.data,
    {
        self.cell.data
    }
}

/// Local reference-count bookkeeping of a shared cell.  Sharing never
/// crosses a process boundary: the count only tracks how many local
/// holders exist, and the backing region is released exactly when the
/// count reaches zero.
pub struct RefCount {
    pub holders: usize,
}

impl RefCount {
    /// One holder exists when the shared cell is created.
    pub fn new() -> (r: RefCount)
        ensures
            r.holders == 1,
    {
        RefCount { holders: 1 }
    }

    /// Adds a local holder.
    pub fn retain(&mut self)
        requires
            1 <= old(self).holders < usize::MAX,
        ensures
            final(self).holders == old(self).holders + 1,
    {
        self.holders = self.holders + 1;
    }

    /// Drops a local holder; returns whether this was the last one, i.e.
    /// whether the backing region is to be released now.
    pub fn release(&mut self) -> (freed: bool)
        requires
            old(self).holders >= 1,
        ensures
            final(self).holders == old(self).holders - 1,
            freed <==> old(self).holders == 1,
    {
        self.holders = self.holders - 1;
        self.holders == 0
    }
}

/// Dropping every holder of a shared cell releases the backing region
/// exactly once, however many local holders existed: of the release
/// calls, all but the final one report nothing to free, and the final one
/// frees.
pub fn drop_all_holders(rc: &mut RefCount) -> (frees: Vec<bool>)
    requires
        old(rc).holders >= 1,
    ensures
        final(rc).holders == 0,
        frees@.len() == old(rc).holders,
        forall|i: int| 0 <= i < frees@.len() - 1 ==> !(#[trigger] frees@[i]),
        frees@.last(),
{
    let n = rc.holders;
    let mut frees: Vec<bool> = Vec::with_capacity(n);
    let mut i: usize = 0;
    while i < n
        invariant
            i <= n,
            rc.holders == n - i,
            frees@.len() == i,
            forall|j: int| 0 <= j < i ==> (#[trigger] frees@[j] <==> j == n - 1),
        decreases n - i,
    {
        let freed = rc.release();
        frees.push(freed);
        i += 1;
    }
    frees
}

} // verus!
