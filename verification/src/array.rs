//! The typed scoped buffer.
//!
//! A [`VLArray`] is a typed, bounds-known view over one reservation carved
//! out of a context's stack region.  It records the start address of its
//! region and owns the lifetime of its elements, but never the backing
//! memory: dropping a buffer destructs its elements and leaves the stack
//! pointer untouched, and only the owning context reclaims the region, all
//! reservations in one step, on its own destruction.

use vstd::prelude::*;
use crate::context::MIN_ALIGN;
use crate::context::round_up_to_align;

verus! {

/// A typed buffer stored in the stack region reserved by a context.
pub struct VLArray<T> {
    /// Start address of the carved-out region.
    pub(crate) origin: usize,
    /// The elements; their lifetime is owned by the buffer, while the
    /// backing stack memory stays owned by the context that produced it.
    pub(crate) elems: Vec<T>,
}

impl<T> View for VLArray<T> {
    type V = Seq<T>;

    closed spec fn view(&self) -> Seq<T> {
        self.elems@
    }
}

impl<T> VLArray<T> {
    /// Assemble the view over a freshly carved-out region; only the context
    /// builds buffers.
    pub(crate) fn from_parts(origin: usize, elems: Vec<T>) -> (buf: VLArray<T>)
        ensures
            buf@ == elems@,
            buf.origin() == origin as int,
    {
        VLArray { origin, elems }
    }

    /// Start address of the buffer's region.
    pub closed spec fn origin(&self) -> int {
        self.origin as int
    }

    /// Bytes the buffer's reservation occupies: the element bytes rounded up
    /// to the alignment policy.
    pub open spec fn reserved_bytes(&self) -> int {
        round_up_to_align((self@.len() * vstd::layout::size_of::<T>()) as int)
    }

    /// A well-formed buffer starts at an address aligned to the policy
    /// constant, and its region ends at or below the address space's top.
    pub open spec fn wf(&self) -> bool {
        &&& self.origin() % (MIN_ALIGN as int) == 0
        &&& self.origin() + self.reserved_bytes() <= usize::MAX
    }

    /// Number of elements in the buffer.
    pub fn len(&self) -> (n: usize)
        ensures
            n == self@.len(),
    {
        self.elems.len()
    }

    /// The start address of the buffer's region.
    pub fn start_address(&self) -> (addr: usize)
        ensures
            addr as int == self.origin(),
    {
        self.origin
    }

    /// Read the element at `index`.  Bounds are exactly `[0, len)`; an
    /// out-of-range index is a caller error and is excluded by precondition,
    /// so the buffer itself never faults.
    pub fn get(&self, index: usize) -> (element: &T)
        requires
            index < self@.len(),
        ensures
            *element == self@[index as int],
    {
        &self.elems[index]
    }

    /// Overwrite the element at `index`.  Every other element is unchanged:
    /// the new contents are exactly the old contents updated at `index`.
    pub fn set(&mut self, index: usize, value: T)
        requires
            index < old(self)@.len(),
        ensures
            final(self)@ == old(self)@.update(index as int, value),
            final(self).origin() == old(self).origin(),
    {
        self.elems[index] = value;
    }

    /// Read-only view of all elements in index order, for sequential
    /// traversal; the buffer stays alive, so traversal can be restarted any
    /// number of times.
    pub fn as_slice(&self) -> (elements: &[T])
        ensures
            elements@ == self@,
    {
        self.elems.as_slice()
    }

    /// Read-write view of all elements in index order, for sequential
    /// mutating traversal: what the caller leaves in the slice is exactly
    /// what the buffer then holds, and the buffer's region is untouched.
    pub fn as_mut_slice(&mut self) -> (elements: &mut [T])
        ensures
            elements@ == old(self)@,
            final(elements)@ == final(self)@,
            final(self).origin() == old(self).origin(),
    {
        self.elems.as_mut_slice()
    }
}

/// Mutating one element of a buffer never changes any other element: after
/// updating position `i` of contents `s` with `v`, the length is unchanged,
/// position `i` holds `v`, and every other position `j` holds exactly what it
/// held before.  Together with the contract of [`VLArray::set`], whose result
/// is precisely `old(self)@.update(...)`, this says the elements of a buffer
/// are independent of one another.
pub proof fn lemma_element_update_independent<T>(s: Seq<T>, i: int, v: T, j: int)
    requires
        0 <= i < s.len(),
        0 <= j < s.len(),
        i != j,
    ensures
        s.update(i, v).len() == s.len(),
        s.update(i, v)[i] == v,
        s.update(i, v)[j] == s[j],
{
}

} // verus!
