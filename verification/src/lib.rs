//! Argument encoding and result classification for the Linux `futex` syscall.
//!
//! The kernel exposes one multiplexed entry point: six positional argument
//! slots whose meaning depends on the op-code, an op-code word that combines a
//! base operation with a scope bit and sometimes a clock bit, and error codes
//! whose meaning also depends on the op-code.  This crate builds those
//! arguments and classifies those outcomes; performing the call itself (and
//! blocking on it) is the embedding program's job.

pub mod calls;
pub mod classify;
pub mod errors;
pub mod op;
pub mod scope;
pub mod sys;
pub mod timeout;

pub use errors::RequeuePiError;
pub use errors::TimedLockError;
pub use errors::TimedRequeueError;
pub use errors::TimedRequeuePiError;
pub use errors::TimedWaitError;
pub use errors::TryAgainError;
pub use errors::WaitError;
pub use errors::WrongValueError;
pub use scope::Private;
pub use scope::Scope;
pub use scope::Shared;
pub use sys::Error;
pub use sys::FutexCall;
pub use timeout::ClockId;
pub use timeout::Deadline;
pub use timeout::TimeSpec;
