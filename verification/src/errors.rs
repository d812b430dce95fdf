//! Operation-specific outcome types.
//!
//! The kernel overloads its error codes: the same code means different
//! things for different op-codes.  Each operation therefore gets its own
//! closed outcome type, so a caller can never misread a condition.  A code
//! outside the foreseen set for an operation is never turned into one of
//! these: it is handed back raw, to be treated as a fatal defect.

use vstd::prelude::*;

verus! {

/// The only foreseen error of a compare-and-requeue.
#[derive(Clone, Copy, Debug, PartialEq, Eq, Structural)]
pub enum WrongValueError {
    /// The cell's value did not match the expected value.
    WrongValue,
}

/// Foreseen errors of an unbounded wait.
#[derive(Clone, Copy, Debug, PartialEq, Eq, Structural)]
pub enum WaitError {
    /// The cell's value did not match the expected value.
    WrongValue,
    /// A signal arrived during the wait.
    Interrupted,
}

/// Foreseen errors of a bounded wait.
#[derive(Clone, Copy, Debug, PartialEq, Eq, Structural)]
pub enum TimedWaitError {
    /// The cell's value did not match the expected value.
    WrongValue,
    /// A signal arrived during the wait.
    Interrupted,
    /// The deadline passed before a wake arrived.
    TimedOut,
}

/// The only foreseen error of the lock, trylock and
/// requeue-to-priority-cell operations.
#[derive(Clone, Copy, Debug, PartialEq, Eq, Structural)]
pub enum TryAgainError {
    /// The owner is about to exit but has not yet released the cell, or the
    /// cell's value did not match the expected value.
    TryAgain,
}

/// Foreseen errors of a bounded priority-inheriting lock.
#[derive(Clone, Copy, Debug, PartialEq, Eq, Structural)]
pub enum TimedLockError {
    /// The owner is about to exit but has not yet released the cell.
    TryAgain,
    /// The deadline passed before the lock was acquired.
    TimedOut,
}

/// Foreseen errors of a bounded compare-and-requeue.
#[derive(Clone, Copy, Debug, PartialEq, Eq, Structural)]
pub enum TimedRequeueError {
    /// The cell's value did not match the expected value.
    WrongValue,
    /// The deadline passed before the operation completed.
    TimedOut,
}

/// The only foreseen error of an unbounded wait-then-requeue to a
/// priority-inheriting cell.
#[derive(Clone, Copy, Debug, PartialEq, Eq, Structural)]
pub enum RequeuePiError {
    /// The cell's value did not match the expected value, or a plain wake
    /// arrived before the requeue.
    TryAgain,
}

/// Foreseen errors of a bounded wait-then-requeue to a priority-inheriting
/// cell.
#[derive(Clone, Copy, Debug, PartialEq, Eq, Structural)]
pub enum TimedRequeuePiError {
    /// The cell's value did not match the expected value, or a plain wake
    /// arrived before the requeue.
    TryAgain,
    /// The deadline passed before the operation completed.
    TimedOut,
}

} // verus!
