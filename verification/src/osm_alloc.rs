//! Stateless allocator capability bound to a communication scope.
//!
//! `OsmMalloc` carries no storage of its own: it witnesses that the scope is
//! alive and forwards allocation requests to the symmetric heap.  It is the
//! caller's responsibility — the benchmark and trace engines — to issue
//! allocation calls in identical order on every participant, because remote
//! addressing assumes each participant's Nth allocation occupies the same
//! relative offset everywhere.

use vstd::prelude::*;

use crate::BenchError;
use crate::osm_scope::OsmScope;
use crate::shalloc::ShMalloc;
use crate::shalloc::spec_align_up;

verus! {

/// A lifetime-tracking allocation capability; not a runtime value.
pub struct OsmMalloc {}

impl OsmMalloc {
    /// Binds the capability to a live scope.
    pub fn new(_scope: &OsmScope) -> (r: OsmMalloc) {
        OsmMalloc {  }
    }

    /// Forwards an allocation request to the symmetric heap: a block sized
    /// and aligned per the request, or the fatal allocation error.
    pub fn allocate(&self, heap: &mut ShMalloc, size: usize, align: usize) -> (r: Result<
        usize,
        BenchError,
    >)
        requires
            old(heap).wf(),
            align >= 1,
        ensures
            final(heap).wf(),
            r is Ok <==> spec_align_up(old(heap).next as int, align as int) + size <= old(
                heap,
            ).spec_capacity(),
            r matches Ok(off) ==> {
                &&& off == spec_align_up(old(heap).next as int, align as int)
                &&& off as int % (align as int) == 0
                &&& final(heap).next == off + size
                &&& final(heap).live@ == old(heap).live@.push((off, size))
                &&& final(heap).mem@ == old(heap).mem@
            },
            r is Err ==> r == Err::<usize, BenchError>(BenchError::AllocationFailed) && *final(heap)
                == *old(heap),
    {
        heap.allocate(size, align)
    }

    /// Forwards a release request to the symmetric heap.
    pub fn deallocate(&self, heap: &mut ShMalloc, offset: usize)
        requires
            old(heap).wf(),
            exists|i: int|
                0 <= i < old(heap).live@.len() && (#[trigger] old(heap).live@[i]).0 == offset,
        ensures
            final(heap).wf(),
            final(heap).mem@ == old(heap).mem@,
            final(heap).next == old(heap).next,
            exists|i: int|
                {
                    &&& 0 <= i < old(heap).live@.len()
                    &&& (#[trigger] old(heap).live@[i]).0 == offset
                    &&& final(heap).live@ == old(heap).live@.remove(i)
                },
    {
        heap.deallocate(offset)
    }

    /// Forwards a grow request to the symmetric heap: the block is
    /// relocated to the bump pointer with its bytes preserved up to the
    /// old size, its old table entry replaced by the grown one; on
    /// exhaustion the heap is unchanged and the old block stays live.
    pub fn grow(&self, heap: &mut ShMalloc, offset: usize, old_size: usize, new_size: usize) -> (r:
        Result<usize, BenchError>)
        requires
            old(heap).wf(),
            old(heap).live@.contains((offset, old_size)),
            old_size <= new_size,
        ensures
            final(heap).wf(),
            final(heap).spec_capacity() == old(heap).spec_capacity(),
            r is Ok <==> old(heap).next + new_size <= old(heap).spec_capacity(),
            r matches Ok(new_off) ==> {
                &&& new_off == old(heap).next
                &&& new_off + new_size <= old(heap).spec_capacity()
                &&& final(heap).next == old(heap).next + new_size
                &&& forall|k: int|
                    0 <= k < old_size ==> #[trigger] final(heap).mem@[new_off + k] == old(
                        heap,
                    ).mem@[offset + k]
                &&& forall|k: int|
                    0 <= k < old(heap).next ==> #[trigger] final(heap).mem@[k] == old(heap).mem@[k]
                &&& exists|i: int|
                    {
                        &&& 0 <= i < old(heap).live@.len()
                        &&& (#[trigger] old(heap).live@[i]).0 == offset
                        &&& final(heap).live@ == old(heap).live@.remove(i).push(
                            (new_off, new_size),
                        )
                    }
            },
            r is Err ==> r == Err::<usize, BenchError>(BenchError::AllocationFailed) && *final(heap)
                == *old(heap),
    {
        heap.grow(offset, old_size, new_size)
    }
}

} // verus!
