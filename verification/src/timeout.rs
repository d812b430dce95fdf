//! The timeout resolver: turning a point in time into the kernel's time
//! structure and into the clock flag the op-code must carry.
//!
//! The kernel reads seconds plus nanoseconds, with the nanoseconds
//! normalized to `[0, 1_000_000_000)`.  A bounded wait names the clock its
//! deadline is measured on; the flag and the structure travel together so
//! that they cannot fall out of step.

use vstd::prelude::*;

verus! {

/// The flag OR'd into an op-code when a deadline is measured on the
/// real-time clock; the monotonic clock is the default and contributes no
/// flag.
pub const CLOCK_REALTIME_FLAG: i32 = 256;

/// Nanoseconds in one second; a normalized nanosecond field stays below it.
pub const NANOS_PER_SEC: u32 = 1_000_000_000;

/// The kernel's time structure: whole seconds and a normalized nanosecond
/// remainder.
#[derive(Clone, Copy, Debug, PartialEq, Eq, Structural)]
pub struct TimeSpec {
    /// Whole seconds.
    pub secs: i64,
    /// Nanoseconds past the last whole second.
    pub nanos: u32,
}

impl TimeSpec {
    /// The structure is meaningful to the kernel: seconds non-negative and
    /// nanoseconds normalized.
    pub open spec fn wellformed(self) -> bool {
        &&& self.secs >= 0
        &&& self.nanos < NANOS_PER_SEC
    }

    /// The whole span in nanoseconds.
    pub open spec fn spec_nanos(self) -> int {
        self.secs * 1_000_000_000 + self.nanos
    }

    /// Build the kernel structure from a duration split as whole seconds
    /// plus the sub-second nanoseconds; the split is carried over exactly.
    pub fn from_duration(secs: u64, subsec_nanos: u32) -> (r: TimeSpec)
        requires
            secs <= i64::MAX,
            subsec_nanos < NANOS_PER_SEC,
        ensures
            r.secs == secs,
            r.nanos == subsec_nanos,
            r.wellformed(),
    {
        TimeSpec { secs: secs as i64, nanos: subsec_nanos }
    }

    /// Read the structure back as whole seconds plus sub-second
    /// nanoseconds: the exact split [`TimeSpec::from_duration`] was given.
    pub fn duration_parts(self) -> (r: (u64, u32))
        requires
            self.wellformed(),
        ensures
            r.0 == self.secs,
            r.1 == self.nanos,
    {
        (self.secs as u64, self.nanos)
    }
}

/// Law: distinct well-formed structures stand for distinct spans, so a
/// structure loses nothing of the duration it was built from.
pub proof fn lemma_timespec_injective(a: TimeSpec, b: TimeSpec)
    requires
        a.wellformed(),
        b.wellformed(),
        a.spec_nanos() == b.spec_nanos(),
    ensures
        a == b,
{
    assert(a.secs == b.secs) by (nonlinear_arith)
        requires
            a.secs >= 0,
            b.secs >= 0,
            a.nanos < 1_000_000_000,
            b.nanos < 1_000_000_000,
            a.secs * 1_000_000_000 + a.nanos == b.secs * 1_000_000_000 + b.nanos,
    ;
}

/// The clock a deadline is measured on.
#[derive(Clone, Copy, Debug, PartialEq, Eq, Structural)]
pub enum ClockId {
    /// The monotonic clock, counted from its own epoch; never jumps.
    Monotonic,
    /// The real-time clock, counted from the Unix epoch; may be set.
    RealTime,
}

impl ClockId {
    /// The flag this clock contributes to an op-code.
    pub open spec fn spec_flag(self) -> i32 {
        match self {
            ClockId::Monotonic => 0,
            ClockId::RealTime => CLOCK_REALTIME_FLAG,
        }
    }

    /// The flag OR'd into the op-code of a bounded wait with a deadline on
    /// this clock.
    pub fn flag(self) -> (f: i32)
        ensures
            f == self.spec_flag(),
    {
        match self {
            ClockId::Monotonic => 0,
            ClockId::RealTime => CLOCK_REALTIME_FLAG,
        }
    }
}

/// An absolute point in time: the clock it is measured on, and the time
/// since that clock's epoch.
#[derive(Clone, Copy, Debug, PartialEq, Eq, Structural)]
pub struct Deadline {
    /// The clock the deadline is measured on.
    pub clock: ClockId,
    /// Time since the clock's epoch.
    pub ts: TimeSpec,
}

impl Deadline {
    /// The time structure is meaningful to the kernel.
    pub open spec fn wellformed(self) -> bool {
        self.ts.wellformed()
    }

    /// A deadline on the monotonic clock, as time since that clock's epoch
    /// split into whole seconds plus sub-second nanoseconds.
    pub fn monotonic(secs: u64, subsec_nanos: u32) -> (r: Deadline)
        requires
            secs <= i64::MAX,
            subsec_nanos < NANOS_PER_SEC,
        ensures
            r.clock == ClockId::Monotonic,
            r.ts.secs == secs,
            r.ts.nanos == subsec_nanos,
            r.wellformed(),
    {
        Deadline { clock: ClockId::Monotonic, ts: TimeSpec::from_duration(secs, subsec_nanos) }
    }

    /// A deadline on the real-time clock, as time since the Unix epoch
    /// split into whole seconds plus sub-second nanoseconds.  A point
    /// before the epoch has no representation here: rejecting it is the
    /// caller's duty.
    pub fn real_time(secs: u64, subsec_nanos: u32) -> (r: Deadline)
        requires
            secs <= i64::MAX,
            subsec_nanos < NANOS_PER_SEC,
        ensures
            r.clock == ClockId::RealTime,
            r.ts.secs == secs,
            r.ts.nanos == subsec_nanos,
            r.wellformed(),
    {
        Deadline { clock: ClockId::RealTime, ts: TimeSpec::from_duration(secs, subsec_nanos) }
    }
}

} // verus!
