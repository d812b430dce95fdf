//! The kernel time structure: exact conversion from a split duration and
//! back.

use linux_futex::timeout::{ClockId, Deadline, TimeSpec, NANOS_PER_SEC};
use std::time::Duration;

#[test]
fn one_and_a_half_seconds_round_trip() {
    // A duration of 1.5 s becomes seconds = 1, nanoseconds = 500_000_000,
    // and converting back gives the original duration exactly.
    let d = Duration::from_millis(1500);
    let ts = TimeSpec::from_duration(d.as_secs(), d.subsec_nanos());
    assert_eq!(ts.secs, 1);
    assert_eq!(ts.nanos, 500_000_000);
    let (secs, nanos) = ts.duration_parts();
    assert_eq!(Duration::new(secs, nanos), d);
}

#[test]
fn zero_duration() {
    let ts = TimeSpec::from_duration(0, 0);
    assert_eq!((ts.secs, ts.nanos), (0, 0));
    let (secs, nanos) = ts.duration_parts();
    assert_eq!(Duration::new(secs, nanos), Duration::ZERO);
}

#[test]
fn largest_nanosecond_remainder() {
    let ts = TimeSpec::from_duration(3, NANOS_PER_SEC - 1);
    assert_eq!(ts.secs, 3);
    assert_eq!(ts.nanos, 999_999_999);
    let (secs, nanos) = ts.duration_parts();
    assert_eq!(Duration::new(secs, nanos), Duration::new(3, 999_999_999));
}

#[test]
fn clock_flags_match_the_c_library() {
    assert_eq!(ClockId::Monotonic.flag(), 0);
    assert_eq!(ClockId::RealTime.flag(), libc::FUTEX_CLOCK_REALTIME);
}

#[test]
fn deadline_constructors_tag_the_clock() {
    let m = Deadline::monotonic(12, 34);
    assert_eq!(m.clock, ClockId::Monotonic);
    assert_eq!((m.ts.secs, m.ts.nanos), (12, 34));
    let r = Deadline::real_time(56, 78);
    assert_eq!(r.clock, ClockId::RealTime);
    assert_eq!((r.ts.secs, r.ts.nanos), (56, 78));
}
