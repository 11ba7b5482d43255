//! Model of the symmetric heap and its allocator.
//!
//! Every participant owns a private region of the same size at the same
//! relative offsets; an address handed out here is a valid one-sided target
//! on every participant.  The heap hands out blocks in allocation order, so
//! two participants that issue the same sequence of requests against heaps
//! of the same size receive the same offsets — the protocol precondition
//! that all remote addressing rests on.  Issuing the requests in identical
//! order on every participant is the caller's responsibility; it cannot be
//! checked locally.
//!
//! Allocation failure is fatal for the job (there is no fallback allocator);
//! it is reported as `BenchError::AllocationFailed` and never retried.

use vstd::prelude::*;

use crate::BenchError;

verus! {

/// One live allocation: its offset into the heap and its size in bytes.
pub type Block = (usize, usize);

/// Whether two blocks cover non-overlapping byte ranges.
pub open spec fn blocks_disjoint(a: Block, b: Block) -> bool {
    a.0 + a.1 <= b.0 || b.0 + b.1 <= a.0
}

/// The smallest multiple of `align` at or above `next`.
pub open spec fn spec_align_up(next: int, align: int) -> int
    recommends
        align >= 1,
{
    if next % align == 0 {
        next
    } else {
        next + (align - next % align)
    }
}

/// Whether all blocks of a live-set are pairwise non-overlapping.
pub open spec fn live_set_disjoint(live: Seq<Block>) -> bool {
    forall|i: int, j: int|
        0 <= i < j < live.len() ==> blocks_disjoint(#[trigger] live[i], #[trigger] live[j])
}

/// The index of the first live block that starts at `offset`.
fn find_block(live: &Vec<Block>, offset: usize) -> (r: usize)
    requires
        exists|i: int| 0 <= i < live@.len() && (#[trigger] live@[i]).0 == offset,
    ensures
        r < live@.len(),
        live@[r as int].0 == offset,
{
    let mut i: usize = 0;
    while i < live.len()
        invariant
            i <= live@.len(),
            forall|j: int| 0 <= j < i ==> (#[trigger] live@[j]).0 != offset,
            exists|j: int| 0 <= j < live@.len() && (#[trigger] live@[j]).0 == offset,
        decreases live@.len() - i,
    {
        if live[i].0 == offset {
            return i;
        }
        i += 1;
    }
    proof {
        assert(false);
    }
    0
}

/// The symmetric heap of one participant: a fixed byte region and the table
/// of live allocations, handed out bump-wise in request order.
pub struct ShMalloc {
    pub mem: Vec<u8>,
    pub next: usize,
    pub live: Vec<Block>,
}

impl ShMalloc {
    /// Heap invariant: the bump pointer stays within the region, every live
    /// block lies below the bump pointer, and live blocks never overlap.
    pub open spec fn wf(&self) -> bool {
        &&& self.next <= self.mem@.len()
        &&& forall|i: int|
            0 <= i < self.live@.len() ==> (#[trigger] self.live@[i]).0 + self.live@[i].1
                <= self.next
        &&& live_set_disjoint(self.live@)
    }

    /// The region size in bytes.
    pub open spec fn spec_capacity(&self) -> int {
        self.mem@.len() as int
    }

    /// A fresh heap of `capacity` bytes with no live allocations.
    pub fn new(capacity: usize) -> (r: ShMalloc)
        ensures
            r.wf(),
            r.spec_capacity() == capacity,
            r.next == 0,
            r.live@.len() == 0,
    {
        let mut mem: Vec<u8> = Vec::new();
        let mut i: usize = 0;
        while i < capacity
            invariant
                i <= capacity,
                mem@.len() == i,
            decreases capacity - i,
        {
            mem.push(0);
            i += 1;
        }
        ShMalloc { mem, next: 0, live: Vec::new() }
    }

    /// Requests a block of `size` bytes aligned to `align`.  Succeeds
    /// exactly when the region still has room past the alignment padding,
    /// returning the block's offset — the smallest multiple of `align` at
    /// or above the bump pointer.  The offset is a function of the request
    /// history alone, so identical request orders on all participants
    /// yield identical offsets everywhere.
    pub fn allocate(&mut self, size: usize, align: usize) -> (r: Result<usize, BenchError>)
        requires
            old(self).wf(),
            align >= 1,
        ensures
            final(self).wf(),
            final(self).spec_capacity() == old(self).spec_capacity(),
            r is Ok <==> spec_align_up(old(self).next as int, align as int) + size <= old(
                self,
            ).spec_capacity(),
            r matches Ok(off) ==> {
                &&& off == spec_align_up(old(self).next as int, align as int)
                &&& off as int % (align as int) == 0
                &&& final(self).next == off + size
                &&& final(self).live@ == old(self).live@.push((off, size))
                &&& final(self).mem@ == old(self).mem@
            },
            r is Err ==> r == Err::<usize, BenchError>(BenchError::AllocationFailed) && *final(self)
                == *old(self),
    {
        let pad: usize = if self.next % align == 0 {
            0
        } else {
            align - self.next % align
        };
        if pad > self.mem.len() - self.next {
            return Err(BenchError::AllocationFailed);
        }
        let off = self.next + pad;
        proof {
            let n0 = old(self).next as int;
            let al = align as int;
            if n0 % al != 0 {
                vstd::arithmetic::div_mod::lemma_fundamental_div_mod(n0, al);
                let q = n0 / al;
                assert(off == al * q + al);
                assert((al * q + al) % al == 0) by (nonlinear_arith)
                    requires
                        al >= 1,
                ;
            }
        }
        if size <= self.mem.len() - off {
            self.next = off + size;
            self.live.push((off, size));
            Ok(off)
        } else {
            Err(BenchError::AllocationFailed)
        }
    }

    /// Releases a previously allocated block back to the heap.  The block
    /// must be live; its entry leaves the table, and the heap bytes are
    /// untouched.
    pub fn deallocate(&mut self, offset: usize)
        requires
            old(self).wf(),
            exists|i: int|
                0 <= i < old(self).live@.len() && (#[trigger] old(self).live@[i]).0 == offset,
        ensures
            final(self).wf(),
            final(self).mem@ == old(self).mem@,
            final(self).next == old(self).next,
            exists|i: int|
                {
                    &&& 0 <= i < old(self).live@.len()
                    &&& (#[trigger] old(self).live@[i]).0 == offset
                    &&& final(self).live@ == old(self).live@.remove(i)
                },
    {
        let i = find_block(&self.live, offset);
        self.live.remove(i);
        proof {
            old(self).live@.remove_ensures(i as int);
            assert forall|a: int, b: int|
                0 <= a < b < self.live@.len() implies blocks_disjoint(
                #[trigger] self.live@[a],
                #[trigger] self.live@[b],
            ) by {
                let a0: int = if a < i { a } else { a + 1 };
                let b0: int = if b < i { b } else { b + 1 };
                assert(self.live@[a] == old(self).live@[a0]);
                assert(self.live@[b] == old(self).live@[b0]);
            }
        }
    }

    /// Whether the scope that owns this heap may be destroyed: every
    /// symmetric allocation derived from it must have been released first.
    pub fn can_finalize(&self) -> (r: bool)
        ensures
            r <==> self.live@.len() == 0,
    {
        self.live.len() == 0
    }

    /// Grows a live block to `new_size` bytes by relocating it, preserving
    /// its bytes up to the old size.  Succeeds exactly when the region has
    /// room for the new block; on failure the heap is unchanged.
    pub fn grow(&mut self, offset: usize, old_size: usize, new_size: usize) -> (r: Result<
        usize,
        BenchError,
    >)
        requires
            old(self).wf(),
            old(self).live@.contains((offset, old_size)),
            old_size <= new_size,
        ensures
            final(self).wf(),
            final(self).spec_capacity() == old(self).spec_capacity(),
            r is Ok <==> old(self).next + new_size <= old(self).spec_capacity(),
            r matches Ok(new_off) ==> {
                &&& new_off == old(self).next
                &&& new_off + new_size <= old(self).spec_capacity()
                &&& final(self).next == old(self).next + new_size
                &&& forall|k: int|
                    0 <= k < old_size ==> #[trigger] final(self).mem@[new_off + k] == old(
                        self,
                    ).mem@[offset + k]
                &&& forall|k: int|
                    0 <= k < old(self).next ==> #[trigger] final(self).mem@[k] == old(self).mem@[k]
                &&& exists|i: int|
                    {
                        &&& 0 <= i < old(self).live@.len()
                        &&& (#[trigger] old(self).live@[i]).0 == offset
                        &&& final(self).live@ == old(self).live@.remove(i).push(
                            (new_off, new_size),
                        )
                    }
            },
            r is Err ==> r == Err::<usize, BenchError>(BenchError::AllocationFailed) && *final(self)
                == *old(self),
    {
        if new_size > self.mem.len() - self.next {
            return Err(BenchError::AllocationFailed);
        }
        let new_off = self.next;
        proof {
            let i = choose|i: int|
                0 <= i < self.live@.len() && self.live@[i] == (offset, old_size);
            assert(offset + old_size <= self.next);
        }
        let mut k: usize = 0;
        while k < old_size
            invariant
                k <= old_size,
                self.next == old(self).next,
                self.live@ == old(self).live@,
                new_off == old(self).next,
                offset + old_size <= self.next,
                self.next <= self.mem@.len() <= usize::MAX,
                new_off + new_size <= self.mem@.len(),
                old_size <= new_size,
                self.mem@.len() == old(self).mem@.len(),
                forall|j: int| 0 <= j < self.next ==> #[trigger] self.mem@[j] == old(self).mem@[j],
                forall|j: int|
                    0 <= j < k ==> #[trigger] self.mem@[new_off + j] == old(self).mem@[offset + j],
            decreases old_size - k,
        {
            let b = self.mem[offset + k];
            self.mem.set(new_off + k, b);
            k += 1;
        }
        self.deallocate(offset);
        proof {
            let i = choose|i: int|
                {
                    &&& 0 <= i < old(self).live@.len()
                    &&& (#[trigger] old(self).live@[i]).0 == offset
                    &&& self.live@ == old(self).live@.remove(i)
                };
            assert forall|j: int| 0 <= j < self.live@.len() implies (
            #[trigger] self.live@[j]).0 + self.live@[j].1 <= self.next by {
                old(self).live@.remove_ensures(i);
                let j0: int = if j < i {
                    j
                } else {
                    j + 1
                };
                assert(self.live@[j] == old(self).live@[j0]);
            }
        }
        self.next = self.next + new_size;
        self.live.push((new_off, new_size));
        proof {
            assert forall|a: int, b: int|
                0 <= a < b < self.live@.len() implies blocks_disjoint(
                #[trigger] self.live@[a],
                #[trigger] self.live@[b],
            ) by {
                if b + 1 == self.live@.len() {
                    assert(self.live@[b] == (new_off, new_size));
                    assert(self.live@[a].0 + self.live@[a].1 <= new_off);
                }
            }
        }
        Ok(new_off)
    }
}

} // verus!
