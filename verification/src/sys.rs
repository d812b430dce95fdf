//! The shape of the multiplexed kernel call: op-codes, foreseen error
//! codes, and the six-slot argument vector short of the two cell addresses.

use crate::timeout::TimeSpec;
use vstd::prelude::*;

verus! {

/// Op-code: sleep while the cell holds the expected value.
pub const FUTEX_WAIT: i32 = 0;
/// Op-code: wake waiters on the cell.
pub const FUTEX_WAKE: i32 = 1;
/// Op-code: wake some waiters, move the rest to a second cell.
pub const FUTEX_REQUEUE: i32 = 3;
/// Op-code: as requeue, but only if the cell holds the expected value.
pub const FUTEX_CMP_REQUEUE: i32 = 4;
/// Op-code: wake here, modify a second cell, conditionally wake there.
pub const FUTEX_WAKE_OP: i32 = 5;
/// Op-code: take the priority-inheriting lock.
pub const FUTEX_LOCK_PI: i32 = 6;
/// Op-code: release the priority-inheriting lock.
pub const FUTEX_UNLOCK_PI: i32 = 7;
/// Op-code: take the priority-inheriting lock without blocking.
pub const FUTEX_TRYLOCK_PI: i32 = 8;
/// Op-code: sleep, woken only by a wake whose mask intersects ours.
pub const FUTEX_WAIT_BITSET: i32 = 9;
/// Op-code: wake waiters whose wait-mask intersects the given mask.
pub const FUTEX_WAKE_BITSET: i32 = 10;
/// Op-code: sleep, to be moved to a priority-inheriting cell.
pub const FUTEX_WAIT_REQUEUE_PI: i32 = 11;
/// Op-code: wake one waiter, move the rest to a priority-inheriting cell,
/// only if the cell holds the expected value.
pub const FUTEX_CMP_REQUEUE_PI: i32 = 12;
/// Op-code: take the priority-inheriting lock, with the deadline's clock
/// selected by the clock flag.
pub const FUTEX_LOCK_PI2: i32 = 13;

/// Error code: the cell's value did not match, or the protocol asks for a
/// retry.
pub const EAGAIN: i32 = 11;
/// Error code: a signal arrived during a blocking call.
pub const EINTR: i32 = 4;
/// Error code: the deadline passed.
pub const ETIMEDOUT: i32 = 110;

/// A raw error code out of the kernel, uninterpreted.  What it means
/// depends on the op-code that produced it; the classification functions
/// turn it into an operation-specific outcome.
#[derive(Clone, Copy, Debug, PartialEq, Eq, Structural)]
pub struct Error(pub i32);

/// One kernel call, short of the two cell addresses: the op-code word and
/// the three value slots.  The raw call's fourth slot carries either a
/// pointer to a time structure or a plain integer, depending on the
/// op-code; here the two readings are separate fields, and a well-formed
/// call never sets both.
#[derive(Clone, Copy, Debug, PartialEq, Eq, Structural)]
pub struct FutexCall {
    /// The op-code, with the scope flag and any clock flag already OR'd in.
    pub futex_op: i32,
    /// The primary value: expected value or wake count, by op-code.
    pub val: i32,
    /// The fourth slot read as a plain integer: second wake or requeue
    /// count.  Zero whenever a timeout occupies the slot.
    pub val2: i32,
    /// The fourth slot read as a pointer to a time structure.
    pub timeout: Option<TimeSpec>,
    /// The sixth slot: bitset, expected value or packed modify word, by
    /// op-code.
    pub val3: i32,
}

impl FutexCall {
    /// No op-code ever reads the fourth slot both ways: a call carries a
    /// timeout or a second integer, never both, and any timeout it carries
    /// is meaningful to the kernel.
    pub open spec fn wellformed(self) -> bool {
        &&& (self.timeout is Some ==> self.val2 == 0)
        &&& (self.timeout matches Some(ts) ==> ts.wellformed())
    }

    /// The empty call: every slot zeroed, no timeout.
    pub fn new() -> (r: Self)
        ensures
            r.futex_op == 0,
            r.val == 0,
            r.val2 == 0,
            r.timeout is None,
            r.val3 == 0,
            r.wellformed(),
    {
        FutexCall { futex_op: 0, val: 0, val2: 0, timeout: None, val3: 0 }
    }

    /// Fill the op-code slot; the other slots keep their values.
    pub fn futex_op(self, futex_op: i32) -> (r: Self)
        ensures
            r.futex_op == futex_op,
            r.val == self.val,
            r.val2 == self.val2,
            r.timeout == self.timeout,
            r.val3 == self.val3,
    {
        FutexCall { futex_op, ..self }
    }

    /// Fill the primary value slot; the other slots keep their values.
    pub fn val(self, val: i32) -> (r: Self)
        ensures
            r.futex_op == self.futex_op,
            r.val == val,
            r.val2 == self.val2,
            r.timeout == self.timeout,
            r.val3 == self.val3,
    {
        FutexCall { val, ..self }
    }

    /// Read the fourth slot as a plain integer and fill it; any timeout is
    /// dropped, keeping the call well-formed.
    pub fn val2(self, val2: i32) -> (r: Self)
        ensures
            r.futex_op == self.futex_op,
            r.val == self.val,
            r.val2 == val2,
            r.timeout is None,
            r.val3 == self.val3,
    {
        FutexCall { val2, timeout: None, ..self }
    }

    /// Read the fourth slot as a timeout and fill it; the plain-integer
    /// reading is zeroed, keeping the call well-formed.
    pub fn timeout(self, timeout: TimeSpec) -> (r: Self)
        ensures
            r.futex_op == self.futex_op,
            r.val == self.val,
            r.val2 == 0,
            r.timeout == Some(timeout),
            r.val3 == self.val3,
    {
        FutexCall { val2: 0, timeout: Some(timeout), ..self }
    }

    /// Fill the sixth slot; the other slots keep their values.
    pub fn val3(self, val3: i32) -> (r: Self)
        ensures
            r.futex_op == self.futex_op,
            r.val == self.val,
            r.val2 == self.val2,
            r.timeout == self.timeout,
            r.val3 == val3,
    {
        FutexCall { val3, ..self }
    }
}

} // verus!
