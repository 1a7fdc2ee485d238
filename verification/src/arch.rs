//! Architecture stack primitives, as a model.
//!
//! On the real target these are three register operations: read the stack
//! pointer, write the stack pointer, and push the pointer down by a number of
//! bytes in one uninterrupted step.  Here the stack-pointer register is a
//! value of type [`Stack`], so that every property of the bookkeeping — what
//! the pointer is after a reservation, and that destroying a context restores
//! it exactly — is stated and proved rather than assumed.

use vstd::prelude::*;

verus! {

/// Byte alignment that the architecture imposes on the stack pointer.
pub const STACK_ALIGNMENT: usize = 16;

/// Model of the processor stack-pointer register.
///
/// The stack grows downward: reserving memory moves the pointer toward lower
/// addresses.  A `Stack` is owned by whoever currently controls the register;
/// a context takes it whole for its lifetime and hands it back on
/// destruction, which models the exclusive ownership the discipline demands.
pub struct Stack {
    sp: usize,
}

impl Stack {
    /// The current stack-pointer value.
    pub closed spec fn sp(&self) -> int {
        self.sp as int
    }

    /// A stack whose pointer currently holds `initial_sp`.
    pub fn new(initial_sp: usize) -> (stack: Stack)
        ensures
            stack.sp() == initial_sp as int,
    {
        Stack { sp: initial_sp }
    }

    /// Read the current stack pointer.
    pub fn read_sp(&self) -> (sp: usize)
        ensures
            sp as int == self.sp(),
    {
        self.sp
    }

    /// Write the stack pointer.
    pub fn write_sp(&mut self, sp: usize)
        ensures
            final(self).sp() == sp as int,
    {
        self.sp = sp;
    }

    /// Push the stack pointer down by `size` bytes and return the base of
    /// the newly reserved region, i.e. the address immediately below the
    /// pre-reservation pointer.
    ///
    /// Exceeding the available stack is an unrecoverable memory fault on the
    /// target, never a catchable error, so it is excluded here by
    /// precondition.
    pub fn reserve(&mut self, size: usize) -> (origin: usize)
        requires
            size as int <= old(self).sp(),
        ensures
            final(self).sp() == old(self).sp() - size as int,
            origin as int == final(self).sp(),
    {
        self.sp = self.sp - size;
        self.sp
    }
}

} // verus!
