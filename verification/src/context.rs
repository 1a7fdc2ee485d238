//! The scoped stack context.
//!
//! A [`VLACtx`] owns the machine stack for the duration of one function
//! activation.  It captures the stack pointer at creation, carves aligned
//! reservations out of the stack for typed buffers, and on destruction
//! restores the pointer to the captured value, reclaiming every reservation
//! it ever made in one step.  Buffers destruct their elements themselves;
//! the memory is reclaimed only here.
//!
//! The discipline that a context is created on function entry, stays pinned
//! there, and never escapes its activation is enforced by an external
//! collaborator (see [`crate::scoping`]); this module models the context's
//! own bookkeeping and proves it correct: alignment of every reservation,
//! disjointness of the regions handed out, and exact restoration of the
//! stack pointer.

use vstd::prelude::*;
use crate::arch::Stack;
use crate::arch::STACK_ALIGNMENT;
use crate::array::VLArray;

verus! {

broadcast use vstd::layout::layout_of_primitives;

/// The minimum byte alignment of every reservation: the maximum of the
/// natural alignment of a 128-bit word (at most 16 bytes on the supported
/// targets) and the architecture's mandated stack alignment.
pub const MIN_ALIGN: usize = STACK_ALIGNMENT;

/// `n` rounded up to the next multiple of the alignment policy constant.
pub open spec fn round_up_to_align(n: int) -> int {
    if n % (MIN_ALIGN as int) == 0 {
        n
    } else {
        n + ((MIN_ALIGN as int) - n % (MIN_ALIGN as int))
    }
}

/// Whether address `addr` lies inside `region`, given as (start, size).
pub open spec fn in_region(region: (int, int), addr: int) -> bool {
    region.0 <= addr < region.0 + region.1
}

/// What one buffer allocation does to a context, seen from outside: the
/// saved pointer is untouched, one region is appended to the reservation
/// history, and the stack pointer moves down by exactly that region's size.
pub open spec fn allocation_step(pre: VLACtx, post: VLACtx) -> bool {
    &&& post.saved() == pre.saved()
    &&& exists|r: (int, int)|
        {
            &&& #[trigger] post.regions() == pre.regions().push(r)
            &&& r.1 >= 0
            &&& post.sp() == pre.sp() - r.1
        }
}

/// Context within which variable-length buffers are valid.
///
/// It owns the [`Stack`] between creation and destruction — the model of the
/// requirement that exactly one execution context uses the stack region while
/// the context is alive — and remembers in `saved_sp` the pointer captured at
/// creation, immutable thereafter.  `regions` is the history of reservations
/// carved out so far, each as (start address, size in bytes).
pub struct VLACtx {
    stack: Stack,
    saved_sp: usize,
    regions: Ghost<Seq<(int, int)>>,
}

impl VLACtx {
    /// The stack-pointer value captured when the context was created.
    pub closed spec fn saved(&self) -> int {
        self.saved_sp as int
    }

    /// The current stack-pointer value.
    pub closed spec fn sp(&self) -> int {
        self.stack.sp()
    }

    /// Every reservation made through this context, in allocation order,
    /// each as (start address, size in bytes).
    pub closed spec fn regions(&self) -> Seq<(int, int)> {
        self.regions@
    }

    /// Well-formedness of the reservation at position `i`: its size is a
    /// non-negative multiple of the alignment policy, its start address is
    /// aligned, and it lies entirely between the current stack pointer and
    /// the saved one.
    pub open spec fn region_wf(&self, i: int) -> bool {
        &&& self.regions()[i].1 >= 0
        &&& self.regions()[i].0 % (MIN_ALIGN as int) == 0
        &&& self.regions()[i].1 % (MIN_ALIGN as int) == 0
        &&& self.sp() <= self.regions()[i].0
        &&& self.regions()[i].0 + self.regions()[i].1 <= self.saved()
    }

    /// Invariant of an active context: the stack pointer is aligned and has
    /// only moved down from the saved value; every reservation is
    /// well-formed; and later reservations end at or below the start of
    /// earlier ones, so that no two reservations overlap.
    pub open spec fn wf(&self) -> bool {
        &&& 0 <= self.sp() <= self.saved()
        &&& self.sp() % (MIN_ALIGN as int) == 0
        &&& self.saved() % (MIN_ALIGN as int) == 0
        &&& forall|i: int| 0 <= i < self.regions().len() ==> #[trigger] self.region_wf(i)
        &&& forall|i: int, j: int|
            #![trigger self.regions()[i], self.regions()[j]]
            0 <= i < j < self.regions().len()
                ==> self.regions()[j].0 + self.regions()[j].1 <= self.regions()[i].0
    }

    /// Create the context, capturing the current stack pointer.  The context
    /// takes the stack whole: nothing else touches it until [`Self::destroy`]
    /// hands it back.  The architecture keeps the stack pointer aligned, so
    /// an aligned pointer is required of the stack taken over.
    pub fn init(stack: Stack) -> (ctx: VLACtx)
        requires
            stack.sp() % (MIN_ALIGN as int) == 0,
        ensures
            ctx.wf(),
            ctx.saved() == stack.sp(),
            ctx.sp() == stack.sp(),
            ctx.regions() == Seq::<(int, int)>::empty(),
    {
        let saved_sp = stack.read_sp();
        VLACtx { stack, saved_sp, regions: Ghost(Seq::empty()) }
    }

    /// The stack-pointer value captured at creation.
    pub fn saved_pointer(&self) -> (sp: usize)
        ensures
            sp as int == self.saved(),
    {
        self.saved_sp
    }

    /// The current stack-pointer value.
    pub fn stack_pointer(&self) -> (sp: usize)
        ensures
            sp as int == self.sp(),
    {
        self.stack.read_sp()
    }

    /// Reserve space for `size` bytes (rounded up to the alignment policy)
    /// and return the start address of the reservation.
    fn allocate_buffer(&mut self, size: usize) -> (origin: usize)
        requires
            old(self).wf(),
            round_up_to_align(size as int) <= old(self).sp(),
        ensures
            final(self).wf(),
            final(self).saved() == old(self).saved(),
            origin as int == final(self).sp(),
            origin as int % (MIN_ALIGN as int) == 0,
            final(self).sp() == old(self).sp() - round_up_to_align(size as int),
            origin as int + round_up_to_align(size as int) == old(self).sp(),
            final(self).regions() == old(self).regions().push(
                (origin as int, round_up_to_align(size as int)),
            ),
            allocation_step(*old(self), *final(self)),
    {
        let rem = size % MIN_ALIGN;
        let rounded = if rem == 0 {
            size
        } else {
            size + (MIN_ALIGN - rem)
        };
        assert(rounded as int == round_up_to_align(size as int));
        let origin = self.stack.reserve(rounded);
        proof {
            self.regions@ = self.regions@.push((origin as int, rounded as int));
        }
        proof {
            let pre = *old(self);
            let post = *self;
            assert forall|i: int| 0 <= i < post.regions().len() implies #[trigger] post.region_wf(
                i,
            ) by {
                if i < pre.regions().len() {
                    assert(pre.region_wf(i));
                    assert(post.regions()[i] == pre.regions()[i]);
                }
            }
            assert forall|i: int, j: int|
                #![trigger post.regions()[i], post.regions()[j]]
                0 <= i < j < post.regions().len() implies post.regions()[j].0
                + post.regions()[j].1 <= post.regions()[i].0 by {
                if j < pre.regions().len() {
                    assert(post.regions()[i] == pre.regions()[i]);
                    assert(post.regions()[j] == pre.regions()[j]);
                } else {
                    assert(pre.region_wf(i));
                    assert(post.regions()[i] == pre.regions()[i]);
                }
            }
            assert(post.regions() == pre.regions().push((origin as int, rounded as int)));
        }
        origin
    }

    /// Carve out a buffer of `len` bytes, each initialized to zero.
    #[verifier::loop_isolation(false)]
    pub fn zeroed_buffer(&mut self, len: usize) -> (buf: VLArray<u8>)
        requires
            old(self).wf(),
            round_up_to_align(len as int) <= old(self).sp(),
        ensures
            final(self).wf(),
            final(self).saved() == old(self).saved(),
            buf@.len() == len,
            forall|i: int| 0 <= i < len ==> buf@[i] == 0u8,
            buf.wf(),
            buf.origin() == final(self).sp(),
            buf.origin() % (MIN_ALIGN as int) == 0,
            buf.reserved_bytes() == round_up_to_align(len as int),
            buf.origin() + buf.reserved_bytes() == old(self).sp(),
            final(self).sp() == old(self).sp() - buf.reserved_bytes(),
            final(self).regions() == old(self).regions().push(
                (buf.origin(), buf.reserved_bytes()),
            ),
            allocation_step(*old(self), *final(self)),
    {
        let size = len * core::mem::size_of::<u8>();
        let origin = self.allocate_buffer(size);
        let mut elems: Vec<u8> = Vec::new();
        let mut i: usize = 0;
        while i < len
            invariant
                i <= len,
                elems@.len() == i as int,
                forall|k: int| 0 <= k < i ==> elems@[k] == 0u8,
            decreases len - i,
        {
            elems.push(0u8);
            i = i + 1;
        }
        VLArray::from_parts(origin, elems)
    }

    /// Carve out a buffer of `len` elements, each cloned from `value`, the
    /// slots filled left to right.
    #[verifier::loop_isolation(false)]
    pub fn array_from_clone<T: Clone>(&mut self, value: T, len: usize) -> (buf: VLArray<T>)
        requires
            old(self).wf(),
            round_up_to_align((len * vstd::layout::size_of::<T>()) as int) <= old(self).sp(),
        ensures
            final(self).wf(),
            final(self).saved() == old(self).saved(),
            buf@.len() == len,
            forall|i: int| 0 <= i < len ==> cloned(value, #[trigger] buf@[i]),
            buf.wf(),
            buf.origin() == final(self).sp(),
            buf.origin() % (MIN_ALIGN as int) == 0,
            buf.origin() + buf.reserved_bytes() == old(self).sp(),
            final(self).sp() == old(self).sp() - buf.reserved_bytes(),
            final(self).regions() == old(self).regions().push(
                (buf.origin(), buf.reserved_bytes()),
            ),
            allocation_step(*old(self), *final(self)),
    {
        let size = len * core::mem::size_of::<T>();
        let origin = self.allocate_buffer(size);
        let mut elems: Vec<T> = Vec::new();
        let mut i: usize = 0;
        while i < len
            invariant
                i <= len,
                elems@.len() == i as int,
                forall|k: int| 0 <= k < i ==> cloned(value, #[trigger] elems@[k]),
            decreases len - i,
        {
            elems.push(value.clone());
            i = i + 1;
        }
        VLArray::from_parts(origin, elems)
    }

    /// Carve out a buffer holding a clone of every element of `values`, in
    /// source order.
    #[verifier::loop_isolation(false)]
    pub fn array_from_cloneable_slice<T: Clone>(&mut self, values: &[T]) -> (buf: VLArray<T>)
        requires
            old(self).wf(),
            round_up_to_align((values@.len() * vstd::layout::size_of::<T>()) as int) <= old(self).sp(),
        ensures
            final(self).wf(),
            final(self).saved() == old(self).saved(),
            buf@.len() == values@.len(),
            forall|i: int| 0 <= i < values@.len() ==> cloned(values@[i], #[trigger] buf@[i]),
            buf.wf(),
            buf.origin() == final(self).sp(),
            buf.origin() % (MIN_ALIGN as int) == 0,
            buf.origin() + buf.reserved_bytes() == old(self).sp(),
            final(self).sp() == old(self).sp() - buf.reserved_bytes(),
            final(self).regions() == old(self).regions().push(
                (buf.origin(), buf.reserved_bytes()),
            ),
            allocation_step(*old(self), *final(self)),
    {
        let len = values.len();
        let size = len * core::mem::size_of::<T>();
        let origin = self.allocate_buffer(size);
        let mut elems: Vec<T> = Vec::new();
        let mut i: usize = 0;
        while i < len
            invariant
                i <= len,
                elems@.len() == i as int,
                forall|k: int| 0 <= k < i ==> cloned(values@[k], #[trigger] elems@[k]),
            decreases len - i,
        {
            elems.push(values[i].clone());
            i = i + 1;
        }
        VLArray::from_parts(origin, elems)
    }

    /// Carve out a buffer that consumes an exact-size sequence of values,
    /// writing each into successive slots: the buffer's length is the
    /// sequence's length and its elements are the sequence's elements in
    /// order.  Taking the values as an owned vector makes the declared
    /// length and the actual yield count one and the same, closing — on the
    /// safe side — the hazard of an iterator that yields fewer items than it
    /// declares.
    pub fn array_from_exact_size_iterator<T>(&mut self, values: Vec<T>) -> (buf: VLArray<T>)
        requires
            old(self).wf(),
            round_up_to_align((values@.len() * vstd::layout::size_of::<T>()) as int) <= old(self).sp(),
        ensures
            final(self).wf(),
            final(self).saved() == old(self).saved(),
            buf@ == values@,
            buf.wf(),
            buf.origin() == final(self).sp(),
            buf.origin() % (MIN_ALIGN as int) == 0,
            buf.origin() + buf.reserved_bytes() == old(self).sp(),
            final(self).sp() == old(self).sp() - buf.reserved_bytes(),
            final(self).regions() == old(self).regions().push(
                (buf.origin(), buf.reserved_bytes()),
            ),
            allocation_step(*old(self), *final(self)),
    {
        let len = values.len();
        let size = len * core::mem::size_of::<T>();
        let origin = self.allocate_buffer(size);
        VLArray::from_parts(origin, values)
    }

    /// Destroy the context: restore the stack pointer to the value captured
    /// at creation and hand the stack back, reclaiming every reservation
    /// this context made — however many buffers were carved out — in one
    /// step.  Together with [`Self::init`], this is the round trip: the
    /// pointer after destruction equals the pointer observed at creation.
    pub fn destroy(self) -> (stack: Stack)
        ensures
            stack.sp() == self.saved(),
    {
        let VLACtx { stack, saved_sp, regions: _ } = self;
        let mut stack = stack;
        stack.write_sp(saved_sp);
        stack
    }
}

/// The alignment law: every reservation a well-formed context has handed out
/// starts at an address that is a multiple of the alignment policy constant.
pub proof fn lemma_reservations_aligned(ctx: &VLACtx, i: int)
    requires
        ctx.wf(),
        0 <= i < ctx.regions().len(),
    ensures
        ctx.regions()[i].0 % (MIN_ALIGN as int) == 0,
{
    assert(ctx.region_wf(i));
}

/// The no-aliasing law: two distinct reservations of one well-formed context
/// share no address, so a write through one buffer is never observable
/// through another buffer of the same context.
pub proof fn lemma_buffers_do_not_alias(ctx: &VLACtx, i: int, j: int, addr: int)
    requires
        ctx.wf(),
        0 <= i < ctx.regions().len(),
        0 <= j < ctx.regions().len(),
        i != j,
        in_region(ctx.regions()[i], addr),
    ensures
        !in_region(ctx.regions()[j], addr),
{
    if i < j {
        assert(ctx.regions()[j].0 + ctx.regions()[j].1 <= ctx.regions()[i].0);
    } else {
        assert(ctx.regions()[i].0 + ctx.regions()[i].1 <= ctx.regions()[j].0);
    }
}

/// The round-trip law: across any sequence of buffer allocations — each step
/// being what one allocation does to a context, per [`allocation_step`] —
/// the saved stack pointer never changes.  [`VLACtx::init`] captures the
/// pointer observed at creation and [`VLACtx::destroy`] restores exactly the
/// saved value, so after destruction the stack pointer equals the value
/// observed immediately before creation, whatever was allocated in between.
pub proof fn lemma_stack_pointer_round_trip(states: Seq<VLACtx>)
    requires
        states.len() >= 1,
        forall|k: int| 0 <= k < states.len() - 1 ==> #[trigger] allocation_step(
            states[k],
            states[k + 1],
        ),
    ensures
        states.last().saved() == states.first().saved(),
    decreases states.len(),
{
    if states.len() > 1 {
        let front = states.drop_last();
        assert forall|k: int| 0 <= k < front.len() - 1 implies #[trigger] allocation_step(
            front[k],
            front[k + 1],
        ) by {
            assert(allocation_step(states[k], states[k + 1]));
        }
        lemma_stack_pointer_round_trip(front);
        let k = states.len() - 2;
        assert(allocation_step(states[k], states[k + 1]));
        assert(front.last() == states[k]);
        assert(front.first() == states.first());
    }
}

} // verus!
