//! Exclusively owned single value in symmetric memory.
//!
//! `OsmBox` is the single-value analogue of `ShVec`: one symmetric
//! allocation holding one value, exclusively owned, released when the owner
//! is dropped.  Dereferencing yields the single-cell communication view.
//! The benchmark keeps its shared `running` flag in such a box, so that
//! rank 0 can clear every participant's flag with one-sided puts.

use vstd::prelude::*;

use crate::osm_scope::OsmScope;
use crate::osm_wrapper::OsmWrapper;

verus! {

/// A single value allocated from the scope's symmetric heap.
pub struct OsmBox<T> {
    pub cell: OsmWrapper<T>,
}

impl<T: Copy> OsmBox<T> {
    /// Allocates the value in `scope`'s symmetric heap.
    pub fn new(data: T, _scope: &OsmScope) -> (r: OsmBox<T>)
        ensures
            r.cell.data == data,
    {
        OsmBox { cell: OsmWrapper { data } }
    }

    /// The single-cell communication view over the owned value.
    pub fn cell(&self) -> (r: &OsmWrapper<T>)
        ensures
            r.data == self.cell.data,
    {
        &self.cell
    }

    /// The mutable single-cell communication view over the owned value.
    pub fn cell_mut(&mut self) -> (r: &mut OsmWrapper<T>)
        ensures
            r.data == old(self).cell.data,
            final(self).cell == *final(r),
    {
        &mut self.cell
    }

    /// Reads the owned value.
    pub fn load(&self) -> (r: T)
        ensures
            r == self.cell.data,
    {
        self.cell.data
    }

    /// Writes the owned value locally.
    pub fn store(&mut self, v: T)
        ensures
            final(self).cell.data == v,
    {
        self.cell.data = v;
    }
}

} // verus!
