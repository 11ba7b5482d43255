//! Growable, exclusively owned buffer of symmetric memory.
//!
//! `ShVec` is the owning counterpart of [`crate::osm_slice::OsmSlice`]: it
//! allocates its storage from the scope's symmetric heap (in a live job the
//! unverified driver performs that allocation; the model keeps the element
//! storage directly) and hands out the communication view over the region it
//! owns.  All local mutation goes through the owner; remote participants
//! reach the region only through the one-sided verbs of the view.

use vstd::prelude::*;

use crate::osm_scope::OsmScope;
use crate::osm_slice::OsmSlice;

verus! {

/// Growable, contiguous sequence of elements of a fixed element type,
/// exclusively owned, with its lifetime bounded by the originating scope.
pub struct ShVec<T> {
    pub data: OsmSlice<T>,
}

impl<T> View for ShVec<T> {
    type V = Seq<T>;

    open spec fn view(&self) -> Seq<T> {
        self.data@
    }
}

impl<T: Copy> ShVec<T> {
    /// An empty buffer bound to `scope`'s symmetric heap.
    pub fn new(_scope: &OsmScope) -> (r: ShVec<T>)
        ensures
            r@.len() == 0,
    {
        ShVec { data: OsmSlice { data: Vec::new() } }
    }

    /// An empty buffer with room reserved for `size` elements.
    pub fn with_capacity(size: usize, _scope: &OsmScope) -> (r: ShVec<T>)
        ensures
            r@.len() == 0,
    {
        ShVec { data: OsmSlice { data: Vec::with_capacity(size) } }
    }

    /// Appends one element.
    pub fn push(&mut self, value: T)
        requires
            old(self)@.len() < usize::MAX,
        ensures
            final(self)@ == old(self)@.push(value),
    {
        self.data.data.push(value);
    }

    /// Number of elements held.
    pub fn len(&self) -> (r: usize)
        ensures
            r == self@.len(),
    {
        self.data.data.len()
    }

    /// Reads one element.
    pub fn at(&self, i: usize) -> (r: T)
        requires
            i < self@.len(),
        ensures
            r == self@[i as int],
    {
        self.data.data[i]
    }

    /// Writes one element.
    pub fn set(&mut self, i: usize, v: T)
        requires
            i < old(self)@.len(),
        ensures
            final(self)@ == old(self)@.update(i as int, v),
    {
        self.data.data.set(i, v);
    }

    /// Resizes to exactly `size` elements: existing elements up to `size`
    /// are kept, and every newly created slot holds a value produced by `f`.
    pub fn resize_with<F: Fn() -> T>(&mut self, size: usize, f: F)
        requires
            call_requires(f, ()),
        ensures
            final(self)@.len() == size,
            forall|j: int|
                0 <= j < size && j < old(self)@.len() ==> final(self)@[j] == old(self)@[j],
            forall|j: int|
                old(self)@.len() <= j < size ==> call_ensures(f, (), #[trigger] final(self)@[j]),
    {
        if size <= self.data.data.len() {
            self.data.data.truncate(size);
            proof {
                assert(final(self)@ =~= old(self)@.take(size as int));
            }
        } else {
            while self.data.data.len() < size
                invariant
                    call_requires(f, ()),
                    old(self)@.len() <= self@.len() <= size,
                    forall|j: int| 0 <= j < old(self)@.len() ==> self@[j] == old(self)@[j],
                    forall|j: int|
                        old(self)@.len() <= j < self@.len() ==> call_ensures(
                            f,
                            (),
                            #[trigger] self@[j],
                        ),
                decreases size - self@.len(),
            {
                let v = f();
                self.data.data.push(v);
            }
        }
    }

    /// The communication view over the whole owned region.
    pub fn slice(&self) -> (r: &OsmSlice<T>)
        ensures
            r@ == self@,
    {
        &self.data
    }

    /// The mutable communication view over the whole owned region.
    pub fn slice_mut(&mut self) -> (r: &mut OsmSlice<T>)
        ensures
            *r == old(self).data,
            final(self).data == *final(r),
    {
        &mut self.data
    }
}

} // verus!
