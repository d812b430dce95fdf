//! The scope tag: whether a cell is visible in one address space or in
//! several.
//!
//! The tag is fixed for a cell's whole lifetime and must match between a
//! waiter and every waker on the same cell.  Its only per-call effect is the
//! flag OR'd into the op-code.

use vstd::prelude::*;

verus! {

/// The flag OR'd into every op-code for a call on a private-scope cell.
pub const PRIVATE_FLAG: i32 = 128;

/// A cell used only within one address space (one process).  Calls on it
/// carry [`PRIVATE_FLAG`], which lets the kernel take a faster path.
#[derive(Clone, Copy, Debug)]
pub struct Private(());

/// A cell that may be mapped into several address spaces (processes).
/// Calls on it carry no scope flag.
#[derive(Clone, Copy, Debug)]
pub struct Shared(());

/// [`Private`] or [`Shared`].
pub trait Scope {
    /// The scope flag as a specification value.
    spec fn spec_flag() -> i32;

    /// Every scope's flag is either zero or the private bit; call builders
    /// lean on this to rule out overflow when the flag is OR'd in.
    proof fn flag_bounded()
        ensures
            Self::spec_flag() == 0 || Self::spec_flag() == PRIVATE_FLAG,
    ;

    /// The flag OR'd into every op-code for a call on a cell of this scope.
    fn futex_flag() -> (f: i32)
        ensures
            f == Self::spec_flag(),
    ;
}

impl Scope for Private {
    open spec fn spec_flag() -> i32 {
        PRIVATE_FLAG
    }

    proof fn flag_bounded() {
    }

    fn futex_flag() -> (f: i32) {
        PRIVATE_FLAG
    }
}

impl Scope for Shared {
    open spec fn spec_flag() -> i32 {
        0
    }

    proof fn flag_bounded() {
    }

    fn futex_flag() -> (f: i32) {
        0
    }
}

} // verus!
