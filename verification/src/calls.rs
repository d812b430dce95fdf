//! One verified call builder per supported operation.
//!
//! Each builder fills the six-slot argument vector for exactly one op-code:
//! it OR's the scope flag (and, where a deadline is carried, the clock flag)
//! into the op-code word and routes every named argument to its physical
//! slot.  The caller adds the cell addresses and performs the call; the
//! classification functions read the outcome.

use crate::op::OpAndCmp;
use crate::scope::Scope;
use crate::sys::{
    FutexCall, FUTEX_CMP_REQUEUE, FUTEX_CMP_REQUEUE_PI, FUTEX_LOCK_PI, FUTEX_LOCK_PI2,
    FUTEX_REQUEUE, FUTEX_TRYLOCK_PI, FUTEX_UNLOCK_PI, FUTEX_WAIT, FUTEX_WAIT_BITSET,
    FUTEX_WAIT_REQUEUE_PI, FUTEX_WAKE, FUTEX_WAKE_BITSET, FUTEX_WAKE_OP,
};
use crate::timeout::{ClockId, Deadline, TimeSpec};
use vstd::prelude::*;

verus! {

/// Wait until woken: sleep while the cell holds `expected_value`.
pub fn wait_call<S: Scope>(expected_value: i32) -> (c: FutexCall)
    ensures
        c.futex_op == FUTEX_WAIT + S::spec_flag(),
        c.val == expected_value,
        c.val2 == 0,
        c.timeout is None,
        c.val3 == 0,
        c.wellformed(),
{
    proof {
        S::flag_bounded();
    }
    FutexCall::new().futex_op(FUTEX_WAIT + S::futex_flag()).val(expected_value)
}

/// Wait until woken or until the relative timeout expires.  The kernel
/// measures a relative timeout of this operation on the monotonic clock,
/// so the op-code carries no clock flag.
pub fn wait_for_call<S: Scope>(expected_value: i32, timeout: TimeSpec) -> (c: FutexCall)
    requires
        timeout.wellformed(),
    ensures
        c.futex_op == FUTEX_WAIT + S::spec_flag(),
        c.val == expected_value,
        c.val2 == 0,
        c.timeout == Some(timeout),
        c.val3 == 0,
        c.wellformed(),
{
    proof {
        S::flag_bounded();
    }
    FutexCall::new().futex_op(FUTEX_WAIT + S::futex_flag()).val(expected_value).timeout(timeout)
}

/// Wait until woken by a wake whose mask intersects `bitset`.
pub fn wait_bitset_call<S: Scope>(expected_value: i32, bitset: u32) -> (c: FutexCall)
    ensures
        c.futex_op == FUTEX_WAIT_BITSET + S::spec_flag(),
        c.val == expected_value,
        c.val2 == 0,
        c.timeout is None,
        c.val3 == bitset as i32,
        c.wellformed(),
{
    proof {
        S::flag_bounded();
    }
    FutexCall::new().futex_op(FUTEX_WAIT_BITSET + S::futex_flag()).val(expected_value).val3(
        #[verifier::truncate] (bitset as i32),
    )
}

/// Wait as [`wait_bitset_call`], bounded by an absolute deadline; the
/// op-code carries the deadline's clock flag.
pub fn wait_bitset_until_call<S: Scope>(
    expected_value: i32,
    bitset: u32,
    deadline: Deadline,
) -> (c: FutexCall)
    requires
        deadline.wellformed(),
    ensures
        c.futex_op == FUTEX_WAIT_BITSET + deadline.clock.spec_flag() + S::spec_flag(),
        c.val == expected_value,
        c.val2 == 0,
        c.timeout == Some(deadline.ts),
        c.val3 == bitset as i32,
        c.wellformed(),
{
    proof {
        S::flag_bounded();
    }
    FutexCall::new()
        .futex_op(FUTEX_WAIT_BITSET + deadline.clock.flag() + S::futex_flag())
        .val(expected_value)
        .val3(#[verifier::truncate] (bitset as i32))
        .timeout(deadline.ts)
}

/// Wake up to `n` waiters.
pub fn wake_call<S: Scope>(n: i32) -> (c: FutexCall)
    ensures
        c.futex_op == FUTEX_WAKE + S::spec_flag(),
        c.val == n,
        c.val2 == 0,
        c.timeout is None,
        c.val3 == 0,
        c.wellformed(),
{
    proof {
        S::flag_bounded();
    }
    FutexCall::new().futex_op(FUTEX_WAKE + S::futex_flag()).val(n)
}

/// Wake up to `n` waiters whose wait-mask intersects `bitset`.
pub fn wake_bitset_call<S: Scope>(n: i32, bitset: u32) -> (c: FutexCall)
    ensures
        c.futex_op == FUTEX_WAKE_BITSET + S::spec_flag(),
        c.val == n,
        c.val2 == 0,
        c.timeout is None,
        c.val3 == bitset as i32,
        c.wellformed(),
{
    proof {
        S::flag_bounded();
    }
    FutexCall::new().futex_op(FUTEX_WAKE_BITSET + S::futex_flag()).val(n).val3(
        #[verifier::truncate] (bitset as i32),
    )
}

/// Wake up to `n_wake` waiters and move up to `n_requeue` more to a second
/// cell.  The requeue count travels in the fourth slot, read as a plain
/// integer.
pub fn requeue_call<S: Scope>(n_wake: i32, n_requeue: i32) -> (c: FutexCall)
    ensures
        c.futex_op == FUTEX_REQUEUE + S::spec_flag(),
        c.val == n_wake,
        c.val2 == n_requeue,
        c.timeout is None,
        c.val3 == 0,
        c.wellformed(),
{
    proof {
        S::flag_bounded();
    }
    FutexCall::new().futex_op(FUTEX_REQUEUE + S::futex_flag()).val(n_wake).val2(n_requeue)
}

/// As [`requeue_call`], but only if the cell holds `expected_value`, which
/// travels in the sixth slot.
pub fn cmp_requeue_call<S: Scope>(expected_value: i32, n_wake: i32, n_requeue: i32) -> (c:
    FutexCall)
    ensures
        c.futex_op == FUTEX_CMP_REQUEUE + S::spec_flag(),
        c.val == n_wake,
        c.val2 == n_requeue,
        c.timeout is None,
        c.val3 == expected_value,
        c.wellformed(),
{
    proof {
        S::flag_bounded();
    }
    FutexCall::new()
        .futex_op(FUTEX_CMP_REQUEUE + S::futex_flag())
        .val(n_wake)
        .val2(n_requeue)
        .val3(expected_value)
}

/// Wake up to `n` waiters here; atomically modify a second cell as the
/// packed word says and wake up to `n2` waiters there if the word's
/// comparison holds of the old value.
pub fn wake_op_call<S: Scope>(n: i32, n2: i32, op_and_cmp: OpAndCmp) -> (c: FutexCall)
    ensures
        c.futex_op == FUTEX_WAKE_OP + S::spec_flag(),
        c.val == n,
        c.val2 == n2,
        c.timeout is None,
        c.val3 == op_and_cmp@ as i32,
        c.wellformed(),
{
    proof {
        S::flag_bounded();
    }
    FutexCall::new().futex_op(FUTEX_WAKE_OP + S::futex_flag()).val(n).val2(n2).val3(
        #[verifier::truncate] (op_and_cmp.raw_bits() as i32),
    )
}

/// Wake exactly one waiter and move up to `n_requeue` more to a
/// priority-inheriting cell, only if the cell holds `expected_value`.  The
/// kernel fixes the wake count of this op-code at one.
pub fn cmp_requeue_pi_call<S: Scope>(expected_value: i32, n_requeue: i32) -> (c: FutexCall)
    ensures
        c.futex_op == FUTEX_CMP_REQUEUE_PI + S::spec_flag(),
        c.val == 1,
        c.val2 == n_requeue,
        c.timeout is None,
        c.val3 == expected_value,
        c.wellformed(),
{
    proof {
        S::flag_bounded();
    }
    FutexCall::new()
        .futex_op(FUTEX_CMP_REQUEUE_PI + S::futex_flag())
        .val(1)
        .val2(n_requeue)
        .val3(expected_value)
}

/// Wait to be woken or moved to a priority-inheriting cell.
pub fn wait_requeue_pi_call<S: Scope>(expected_value: i32) -> (c: FutexCall)
    ensures
        c.futex_op == FUTEX_WAIT_REQUEUE_PI + S::spec_flag(),
        c.val == expected_value,
        c.val2 == 0,
        c.timeout is None,
        c.val3 == 0,
        c.wellformed(),
{
    proof {
        S::flag_bounded();
    }
    FutexCall::new().futex_op(FUTEX_WAIT_REQUEUE_PI + S::futex_flag()).val(expected_value)
}

/// Wait as [`wait_requeue_pi_call`], bounded by an absolute deadline; the
/// op-code carries the deadline's clock flag.
pub fn wait_requeue_pi_until_call<S: Scope>(expected_value: i32, deadline: Deadline) -> (c:
    FutexCall)
    requires
        deadline.wellformed(),
    ensures
        c.futex_op == FUTEX_WAIT_REQUEUE_PI + deadline.clock.spec_flag() + S::spec_flag(),
        c.val == expected_value,
        c.val2 == 0,
        c.timeout == Some(deadline.ts),
        c.val3 == 0,
        c.wellformed(),
{
    proof {
        S::flag_bounded();
    }
    FutexCall::new()
        .futex_op(FUTEX_WAIT_REQUEUE_PI + deadline.clock.flag() + S::futex_flag())
        .val(expected_value)
        .timeout(deadline.ts)
}

/// Take the priority-inheriting lock, blocking while it is held.
pub fn lock_pi_call<S: Scope>() -> (c: FutexCall)
    ensures
        c.futex_op == FUTEX_LOCK_PI + S::spec_flag(),
        c.val == 0,
        c.val2 == 0,
        c.timeout is None,
        c.val3 == 0,
        c.wellformed(),
{
    proof {
        S::flag_bounded();
    }
    FutexCall::new().futex_op(FUTEX_LOCK_PI + S::futex_flag())
}

/// Take the priority-inheriting lock, bounded by an absolute deadline.
/// The older op-code always measures its timeout on the real-time clock;
/// a monotonic deadline therefore needs the newer op-code, which reads the
/// clock flag (and here gets none, selecting the monotonic clock).  The
/// choice is made by the deadline's clock alone, not by probing the kernel
/// version.
pub fn lock_pi_until_call<S: Scope>(deadline: Deadline) -> (c: FutexCall)
    requires
        deadline.wellformed(),
    ensures
        deadline.clock is RealTime ==> c.futex_op == FUTEX_LOCK_PI + S::spec_flag(),
        deadline.clock is Monotonic ==> c.futex_op == FUTEX_LOCK_PI2 + S::spec_flag(),
        c.val == 0,
        c.val2 == 0,
        c.timeout == Some(deadline.ts),
        c.val3 == 0,
        c.wellformed(),
{
    proof {
        S::flag_bounded();
    }
    let base: i32 = match deadline.clock {
        ClockId::RealTime => FUTEX_LOCK_PI,
        ClockId::Monotonic => FUTEX_LOCK_PI2,
    };
    FutexCall::new().futex_op(base + S::futex_flag()).timeout(deadline.ts)
}

/// Take the priority-inheriting lock without blocking.
pub fn trylock_pi_call<S: Scope>() -> (c: FutexCall)
    ensures
        c.futex_op == FUTEX_TRYLOCK_PI + S::spec_flag(),
        c.val == 0,
        c.val2 == 0,
        c.timeout is None,
        c.val3 == 0,
        c.wellformed(),
{
    proof {
        S::flag_bounded();
    }
    FutexCall::new().futex_op(FUTEX_TRYLOCK_PI + S::futex_flag())
}

/// Release the priority-inheriting lock.
pub fn unlock_pi_call<S: Scope>() -> (c: FutexCall)
    ensures
        c.futex_op == FUTEX_UNLOCK_PI + S::spec_flag(),
        c.val == 0,
        c.val2 == 0,
        c.timeout is None,
        c.val3 == 0,
        c.wellformed(),
{
    proof {
        S::flag_bounded();
    }
    FutexCall::new().futex_op(FUTEX_UNLOCK_PI + S::futex_flag())
}

} // verus!
