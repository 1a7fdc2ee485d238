//! Scoped, stack-resident buffers whose size is known only at run time.
//!
//! The crate models the variable-length-array discipline of a bare-metal
//! target: a [`context::VLACtx`] captures the machine stack pointer when a
//! function is entered, carves typed buffers ([`array::VLArray`]) out of the
//! stack by pushing the pointer down, and restores the pointer in one step
//! when the context is destroyed.  The machine stack-pointer register is
//! modelled by [`arch::Stack`]; buffer contents are held per buffer, so that
//! a buffer owns the lifetime of its elements while the context alone owns
//! the reserved memory.
//!
//! The scoping discipline itself — a context must be created on function
//! entry, stay pinned, and never escape its activation — is enforced by an
//! external code-generation collaborator; [`scoping`] holds the verified
//! decision rule that collaborator applies to function qualifiers.

pub mod arch;
pub mod array;
pub mod context;
pub mod scoping;

pub use array::VLArray;
pub use context::VLACtx;
