//! Instants and spans of time, as plain numbers.
//!
//! A `Timestamp` holds what a `chrono::DateTime<Utc>` is: whole seconds since
//! the Unix epoch and the nanoseconds past that second. A `Span` holds what a
//! `chrono::TimeDelta` is: whole seconds and a nanosecond part in `0..1e9`,
//! the total bounded by `i64::MAX` milliseconds either way.

use vstd::prelude::*;

verus! {

pub const NANOS_PER_SEC: u32 = 1_000_000_000;

/// The first second that a `DateTime<Utc>` can hold (-262143-01-01T00:00:00Z).
pub const MIN_UTC_SECS: i64 = -8_334_601_315_200;

/// The last second that a `DateTime<Utc>` can hold (+262142-12-31T23:59:59Z).
pub const MAX_UTC_SECS: i64 = 8_210_266_876_799;

/// The largest number of whole seconds that a `Span` made from seconds can hold.
pub const MAX_SPAN_SECS: i64 = 9_223_372_036_854_775;

/// The bound on a span's length, in nanoseconds (`i64::MAX` milliseconds).
pub open spec fn max_span_nanos() -> int {
    9_223_372_036_854_775_807_000_000int
}

/// A point in time on the UTC time line.
#[derive(Clone, Copy, Debug, PartialEq, Eq, Structural)]
pub struct Timestamp {
    /// Whole seconds since 1970-01-01T00:00:00Z.
    pub secs: i64,
    /// Nanoseconds past `secs`.
    pub nanos: u32,
}

impl Timestamp {
    /// Within the range of a `DateTime<Utc>`, and not inside a leap second.
    pub open spec fn wf(self) -> bool {
        &&& self.nanos < NANOS_PER_SEC
        &&& MIN_UTC_SECS <= self.secs <= MAX_UTC_SECS
    }

    /// Nanoseconds since the epoch.
    pub open spec fn total_nanos(self) -> int {
        self.secs * 1_000_000_000 + self.nanos
    }

    /// Builds a timestamp from seconds and nanoseconds since the epoch.
    pub fn new(secs: i64, nanos: u32) -> (t: Timestamp)
        ensures
            t.secs == secs,
            t.nanos == nanos,
    {
        Timestamp { secs, nanos }
    }

    /// Whether `self` comes strictly before `other`.
    pub fn is_before(&self, other: &Timestamp) -> (b: bool)
        requires
            self.nanos < NANOS_PER_SEC,
            other.nanos < NANOS_PER_SEC,
        ensures
            b == (self.total_nanos() < other.total_nanos()),
    {
        proof {
            lemma_total_order(*self, *other);
        }
        self.secs < other.secs || (self.secs == other.secs && self.nanos < other.nanos)
    }
}

proof fn lemma_total_order(a: Timestamp, b: Timestamp)
    requires
        a.nanos < NANOS_PER_SEC,
        b.nanos < NANOS_PER_SEC,
    ensures
        (a.total_nanos() < b.total_nanos()) == (a.secs < b.secs || (a.secs == b.secs && a.nanos < b.nanos)),
{
}

/// A signed length of time.
#[derive(Clone, Copy, Debug, PartialEq, Eq, Structural)]
pub struct Span {
    /// Whole seconds (rounded towards minus infinity).
    pub secs: i64,
    /// Nanoseconds to add to `secs`, below one second.
    pub nanos: u32,
}

impl Span {
    pub open spec fn total_nanos(self) -> int {
        self.secs * 1_000_000_000 + self.nanos
    }

    /// Normalized and within the bounds of a `chrono::TimeDelta`.
    pub open spec fn wf(self) -> bool {
        &&& self.nanos < NANOS_PER_SEC
        &&& -max_span_nanos() <= self.total_nanos() <= max_span_nanos()
    }

    /// The whole seconds of the span, truncated towards zero.
    pub open spec fn spec_num_seconds(self) -> int {
        if self.secs < 0 && self.nanos > 0 {
            self.secs + 1
        } else {
            self.secs as int
        }
    }

    /// A span of `seconds` whole seconds.
    pub fn from_seconds(seconds: i64) -> (s: Span)
        requires
            -MAX_SPAN_SECS <= seconds <= MAX_SPAN_SECS,
        ensures
            s.wf(),
            s.total_nanos() == seconds * 1_000_000_000,
            s.secs == seconds,
            s.nanos == 0,
    {
        Span { secs: seconds, nanos: 0 }
    }

    /// The whole seconds of the span, truncated towards zero.
    pub fn num_seconds(&self) -> (n: i64)
        requires
            self.wf(),
        ensures
            n == self.spec_num_seconds(),
    {
        if self.secs < 0 && self.nanos > 0 {
            self.secs + 1
        } else {
            self.secs
        }
    }
}

/// The current time, as `chrono::Utc::now` reports it from the system clock.
/// Claimed: the nanoseconds are below one second, and the seconds lie
/// between the epoch and the last instant a `DateTime<Utc>` can hold
/// (`Utc::now` panics on a clock that reads before 1970, and unwraps the
/// conversion to `DateTime`). Nothing is claimed of which instant it reads.
#[verifier::external_body]
fn system_clock_now() -> (t: Timestamp)
    ensures
        t.nanos < NANOS_PER_SEC,
        0 <= t.secs <= MAX_UTC_SECS,
{
    let now = chrono::Utc::now();
    Timestamp { secs: now.timestamp(), nanos: now.timestamp_subsec_nanos() }
}

/// The current time.
pub fn utc_now() -> (t: Timestamp)
    ensures
        t.wf(),
        t.secs >= 0,
{
    system_clock_now()
}

/// The signed span from `earlier` to `later` (`later - earlier`).
pub fn span_between(later: Timestamp, earlier: Timestamp) -> (s: Span)
    requires
        later.wf(),
        earlier.wf(),
    ensures
        s.wf(),
        s.total_nanos() == later.total_nanos() - earlier.total_nanos(),
{
    let mut secs: i64 = later.secs - earlier.secs;
    let nanos: u32;
    if later.nanos >= earlier.nanos {
        nanos = later.nanos - earlier.nanos;
    } else {
        secs = secs - 1;
        nanos = later.nanos + NANOS_PER_SEC - earlier.nanos;
    }
    let s = Span { secs, nanos };
    s
}

} // verus!
