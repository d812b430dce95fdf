//! Result classification, one function per operation family.
//!
//! The kernel hands back a non-negative count or a raw error code, and the
//! same code means different things per op-code.  Each function here turns
//! the raw outcome into the operation's own result type, covering exactly
//! the codes foreseen for that operation.  A code outside the foreseen set
//! comes back in the outer `Err`: it marks a defect (misused cell, stale
//! address, malformed word, or an environment this layer did not foresee),
//! and the caller must abort rather than act on a cell in an unknown state.

use crate::errors::{
    RequeuePiError, TimedLockError, TimedRequeuePiError, TimedWaitError, TryAgainError,
    WaitError, WrongValueError,
};
use crate::sys::{Error, EAGAIN, EINTR, ETIMEDOUT};
use vstd::prelude::*;

verus! {

/// Classify the outcome of an unbounded wait.  The cell held another value
/// when the kernel compared, or a signal arrived; nothing else is foreseen.
pub fn classify_wait(r: Result<i32, Error>) -> (out: Result<Result<(), WaitError>, Error>)
    ensures
        r is Ok ==> out == Ok::<Result<(), WaitError>, Error>(Ok(())),
        r == Err::<i32, Error>(Error(EAGAIN)) ==> out == Ok::<Result<(), WaitError>, Error>(
            Err(WaitError::WrongValue),
        ),
        r == Err::<i32, Error>(Error(EINTR)) ==> out == Ok::<Result<(), WaitError>, Error>(
            Err(WaitError::Interrupted),
        ),
        (r matches Err(e) && e.0 != EAGAIN && e.0 != EINTR) ==> out == Err::<
            Result<(), WaitError>,
            Error,
        >(r->Err_0),
{
    match r {
        Ok(_) => Ok(Ok(())),
        Err(e) => if e.0 == EAGAIN {
            Ok(Err(WaitError::WrongValue))
        } else if e.0 == EINTR {
            Ok(Err(WaitError::Interrupted))
        } else {
            Err(e)
        },
    }
}

/// Classify the outcome of a bounded wait: as an unbounded wait, plus the
/// deadline passing.
pub fn classify_timed_wait(r: Result<i32, Error>) -> (out: Result<
    Result<(), TimedWaitError>,
    Error,
>)
    ensures
        r is Ok ==> out == Ok::<Result<(), TimedWaitError>, Error>(Ok(())),
        r == Err::<i32, Error>(Error(EAGAIN)) ==> out == Ok::<Result<(), TimedWaitError>, Error>(
            Err(TimedWaitError::WrongValue),
        ),
        r == Err::<i32, Error>(Error(EINTR)) ==> out == Ok::<Result<(), TimedWaitError>, Error>(
            Err(TimedWaitError::Interrupted),
        ),
        r == Err::<i32, Error>(Error(ETIMEDOUT)) ==> out == Ok::<
            Result<(), TimedWaitError>,
            Error,
        >(Err(TimedWaitError::TimedOut)),
        (r matches Err(e) && e.0 != EAGAIN && e.0 != EINTR && e.0 != ETIMEDOUT) ==> out == Err::<
            Result<(), TimedWaitError>,
            Error,
        >(r->Err_0),
{
    match r {
        Ok(_) => Ok(Ok(())),
        Err(e) => if e.0 == EAGAIN {
            Ok(Err(TimedWaitError::WrongValue))
        } else if e.0 == EINTR {
            Ok(Err(TimedWaitError::Interrupted))
        } else if e.0 == ETIMEDOUT {
            Ok(Err(TimedWaitError::TimedOut))
        } else {
            Err(e)
        },
    }
}

/// Classify the outcome of a compare-and-requeue: the count of waiters
/// woken or moved, or the cell held another value.
pub fn classify_cmp_requeue(r: Result<i32, Error>) -> (out: Result<
    Result<i32, WrongValueError>,
    Error,
>)
    ensures
        r matches Ok(v) ==> out == Ok::<Result<i32, WrongValueError>, Error>(Ok(v)),
        r == Err::<i32, Error>(Error(EAGAIN)) ==> out == Ok::<
            Result<i32, WrongValueError>,
            Error,
        >(Err(WrongValueError::WrongValue)),
        (r matches Err(e) && e.0 != EAGAIN) ==> out == Err::<Result<i32, WrongValueError>, Error>(
            r->Err_0,
        ),
{
    match r {
        Ok(v) => Ok(Ok(v)),
        Err(e) => if e.0 == EAGAIN {
            Ok(Err(WrongValueError::WrongValue))
        } else {
            Err(e)
        },
    }
}

/// Classify the outcome of taking the priority-inheriting lock, blocking
/// or not: the one foreseen error says the owner is exiting (or, for the
/// non-blocking form, that the lock is held) and the whole step must be
/// retried.
pub fn classify_lock_pi(r: Result<i32, Error>) -> (out: Result<Result<(), TryAgainError>, Error>)
    ensures
        r is Ok ==> out == Ok::<Result<(), TryAgainError>, Error>(Ok(())),
        r == Err::<i32, Error>(Error(EAGAIN)) ==> out == Ok::<Result<(), TryAgainError>, Error>(
            Err(TryAgainError::TryAgain),
        ),
        (r matches Err(e) && e.0 != EAGAIN) ==> out == Err::<Result<(), TryAgainError>, Error>(
            r->Err_0,
        ),
{
    match r {
        Ok(_) => Ok(Ok(())),
        Err(e) => if e.0 == EAGAIN {
            Ok(Err(TryAgainError::TryAgain))
        } else {
            Err(e)
        },
    }
}

/// Classify the outcome of a bounded priority-inheriting lock: as the
/// unbounded lock, plus the deadline passing.
pub fn classify_timed_lock(r: Result<i32, Error>) -> (out: Result<
    Result<(), TimedLockError>,
    Error,
>)
    ensures
        r is Ok ==> out == Ok::<Result<(), TimedLockError>, Error>(Ok(())),
        r == Err::<i32, Error>(Error(EAGAIN)) ==> out == Ok::<Result<(), TimedLockError>, Error>(
            Err(TimedLockError::TryAgain),
        ),
        r == Err::<i32, Error>(Error(ETIMEDOUT)) ==> out == Ok::<
            Result<(), TimedLockError>,
            Error,
        >(Err(TimedLockError::TimedOut)),
        (r matches Err(e) && e.0 != EAGAIN && e.0 != ETIMEDOUT) ==> out == Err::<
            Result<(), TimedLockError>,
            Error,
        >(r->Err_0),
{
    match r {
        Ok(_) => Ok(Ok(())),
        Err(e) => if e.0 == EAGAIN {
            Ok(Err(TimedLockError::TryAgain))
        } else if e.0 == ETIMEDOUT {
            Ok(Err(TimedLockError::TimedOut))
        } else {
            Err(e)
        },
    }
}

/// Classify the outcome of waking-and-requeueing onto a priority-inheriting
/// cell: the count of waiters woken or moved, or the cell held another
/// value or a direct waker raced the requeue.
pub fn classify_cmp_requeue_pi(r: Result<i32, Error>) -> (out: Result<
    Result<i32, TryAgainError>,
    Error,
>)
    ensures
        r matches Ok(v) ==> out == Ok::<Result<i32, TryAgainError>, Error>(Ok(v)),
        r == Err::<i32, Error>(Error(EAGAIN)) ==> out == Ok::<Result<i32, TryAgainError>, Error>(
            Err(TryAgainError::TryAgain),
        ),
        (r matches Err(e) && e.0 != EAGAIN) ==> out == Err::<Result<i32, TryAgainError>, Error>(
            r->Err_0,
        ),
{
    match r {
        Ok(v) => Ok(Ok(v)),
        Err(e) => if e.0 == EAGAIN {
            Ok(Err(TryAgainError::TryAgain))
        } else {
            Err(e)
        },
    }
}

/// Classify the outcome of an unbounded wait-then-requeue: the one
/// foreseen error says the cell held another value, or a plain wake
/// arrived before the requeue.
pub fn classify_requeue_pi(r: Result<i32, Error>) -> (out: Result<
    Result<(), RequeuePiError>,
    Error,
>)
    ensures
        r is Ok ==> out == Ok::<Result<(), RequeuePiError>, Error>(Ok(())),
        r == Err::<i32, Error>(Error(EAGAIN)) ==> out == Ok::<Result<(), RequeuePiError>, Error>(
            Err(RequeuePiError::TryAgain),
        ),
        (r matches Err(e) && e.0 != EAGAIN) ==> out == Err::<Result<(), RequeuePiError>, Error>(
            r->Err_0,
        ),
{
    match r {
        Ok(_) => Ok(Ok(())),
        Err(e) => if e.0 == EAGAIN {
            Ok(Err(RequeuePiError::TryAgain))
        } else {
            Err(e)
        },
    }
}

/// Classify the outcome of a bounded wait-then-requeue: as the unbounded
/// form, plus the deadline passing.
pub fn classify_timed_requeue_pi(r: Result<i32, Error>) -> (out: Result<
    Result<(), TimedRequeuePiError>,
    Error,
>)
    ensures
        r is Ok ==> out == Ok::<Result<(), TimedRequeuePiError>, Error>(Ok(())),
        r == Err::<i32, Error>(Error(EAGAIN)) ==> out == Ok::<
            Result<(), TimedRequeuePiError>,
            Error,
        >(Err(TimedRequeuePiError::TryAgain)),
        r == Err::<i32, Error>(Error(ETIMEDOUT)) ==> out == Ok::<
            Result<(), TimedRequeuePiError>,
            Error,
        >(Err(TimedRequeuePiError::TimedOut)),
        (r matches Err(e) && e.0 != EAGAIN && e.0 != ETIMEDOUT) ==> out == Err::<
            Result<(), TimedRequeuePiError>,
            Error,
        >(r->Err_0),
{
    match r {
        Ok(_) => Ok(Ok(())),
        Err(e) => if e.0 == EAGAIN {
            Ok(Err(TimedRequeuePiError::TryAgain))
        } else if e.0 == ETIMEDOUT {
            Ok(Err(TimedRequeuePiError::TimedOut))
        } else {
            Err(e)
        },
    }
}

} // verus!
