//! Result classification: every foreseen error code of every operation
//! family maps to its own outcome, and an unforeseen code is handed back
//! raw for the caller to abort on.

use linux_futex::classify::{
    classify_cmp_requeue, classify_cmp_requeue_pi, classify_lock_pi, classify_requeue_pi,
    classify_timed_lock, classify_timed_requeue_pi, classify_timed_wait, classify_wait,
};
use linux_futex::{
    Error, RequeuePiError, TimedLockError, TimedRequeuePiError, TimedWaitError, TryAgainError,
    WaitError, WrongValueError,
};

#[test]
fn errno_constants_match_the_c_library() {
    assert_eq!(linux_futex::sys::EAGAIN, libc::EAGAIN);
    assert_eq!(linux_futex::sys::EINTR, libc::EINTR);
    assert_eq!(linux_futex::sys::ETIMEDOUT, libc::ETIMEDOUT);
}

#[test]
fn wait_success() {
    assert_eq!(classify_wait(Ok(0)), Ok(Ok(())));
}

#[test]
fn wait_wrong_value() {
    // The cell held a value other than the expected one: the call returns
    // at once with the wrong-value outcome.
    assert_eq!(
        classify_wait(Err(Error(libc::EAGAIN))),
        Ok(Err(WaitError::WrongValue))
    );
}

#[test]
fn wait_interrupted() {
    assert_eq!(
        classify_wait(Err(Error(libc::EINTR))),
        Ok(Err(WaitError::Interrupted))
    );
}

#[test]
fn wait_unforeseen_code_is_fatal() {
    // A timeout cannot come out of an unbounded wait; it marks a defect.
    assert_eq!(
        classify_wait(Err(Error(libc::ETIMEDOUT))),
        Err(Error(libc::ETIMEDOUT))
    );
    assert_eq!(classify_wait(Err(Error(libc::EINVAL))), Err(Error(libc::EINVAL)));
}

#[test]
fn timed_wait_times_out() {
    // A bounded wait on a cell that never changes and is never woken ends
    // with the timed-out outcome once the deadline passes.
    assert_eq!(
        classify_timed_wait(Err(Error(libc::ETIMEDOUT))),
        Ok(Err(TimedWaitError::TimedOut))
    );
}

#[test]
fn timed_wait_other_outcomes() {
    assert_eq!(classify_timed_wait(Ok(0)), Ok(Ok(())));
    assert_eq!(
        classify_timed_wait(Err(Error(libc::EAGAIN))),
        Ok(Err(TimedWaitError::WrongValue))
    );
    assert_eq!(
        classify_timed_wait(Err(Error(libc::EINTR))),
        Ok(Err(TimedWaitError::Interrupted))
    );
    assert_eq!(classify_timed_wait(Err(Error(libc::ENOSYS))), Err(Error(libc::ENOSYS)));
}

#[test]
fn cmp_requeue_returns_the_count() {
    assert_eq!(classify_cmp_requeue(Ok(3)), Ok(Ok(3)));
    assert_eq!(
        classify_cmp_requeue(Err(Error(libc::EAGAIN))),
        Ok(Err(WrongValueError::WrongValue))
    );
    assert_eq!(classify_cmp_requeue(Err(Error(libc::EINVAL))), Err(Error(libc::EINVAL)));
}

#[test]
fn lock_pi_try_again() {
    assert_eq!(classify_lock_pi(Ok(0)), Ok(Ok(())));
    assert_eq!(
        classify_lock_pi(Err(Error(libc::EAGAIN))),
        Ok(Err(TryAgainError::TryAgain))
    );
    assert_eq!(classify_lock_pi(Err(Error(libc::EDEADLK))), Err(Error(libc::EDEADLK)));
}

#[test]
fn timed_lock_outcomes() {
    assert_eq!(classify_timed_lock(Ok(0)), Ok(Ok(())));
    assert_eq!(
        classify_timed_lock(Err(Error(libc::EAGAIN))),
        Ok(Err(TimedLockError::TryAgain))
    );
    assert_eq!(
        classify_timed_lock(Err(Error(libc::ETIMEDOUT))),
        Ok(Err(TimedLockError::TimedOut))
    );
    assert_eq!(classify_timed_lock(Err(Error(libc::EINVAL))), Err(Error(libc::EINVAL)));
}

#[test]
fn cmp_requeue_pi_outcomes() {
    assert_eq!(classify_cmp_requeue_pi(Ok(5)), Ok(Ok(5)));
    assert_eq!(
        classify_cmp_requeue_pi(Err(Error(libc::EAGAIN))),
        Ok(Err(TryAgainError::TryAgain))
    );
    assert_eq!(classify_cmp_requeue_pi(Err(Error(libc::EINVAL))), Err(Error(libc::EINVAL)));
}

#[test]
fn requeue_pi_outcomes() {
    assert_eq!(classify_requeue_pi(Ok(0)), Ok(Ok(())));
    assert_eq!(
        classify_requeue_pi(Err(Error(libc::EAGAIN))),
        Ok(Err(RequeuePiError::TryAgain))
    );
    assert_eq!(classify_requeue_pi(Err(Error(libc::EINVAL))), Err(Error(libc::EINVAL)));
}

#[test]
fn timed_requeue_pi_outcomes() {
    assert_eq!(classify_timed_requeue_pi(Ok(0)), Ok(Ok(())));
    assert_eq!(
        classify_timed_requeue_pi(Err(Error(libc::EAGAIN))),
        Ok(Err(TimedRequeuePiError::TryAgain))
    );
    assert_eq!(
        classify_timed_requeue_pi(Err(Error(libc::ETIMEDOUT))),
        Ok(Err(TimedRequeuePiError::TimedOut))
    );
    assert_eq!(classify_timed_requeue_pi(Err(Error(libc::EINVAL))), Err(Error(libc::EINVAL)));
}
