//! Time as the library counts it: points in time and spans, in whole
//! nanoseconds.

use vstd::prelude::*;
use std::time::{Duration, Instant};

verus! {

/// A reading of the monotonic clock. Nothing is known of one but what
/// [`elapsed`] tells.
#[verifier::external_type_specification]
#[verifier::external_body]
pub struct ExInstant(Instant);

/// The whole seconds of a span, as `Duration::as_secs` gives them.
pub uninterp spec fn duration_secs(d: Duration) -> u64;

/// The nanoseconds of a span beyond its whole seconds, as
/// `Duration::subsec_nanos` gives them.
pub uninterp spec fn duration_subsec_nanos(d: Duration) -> u32;

/// `Duration::as_secs`: the whole seconds of the span, the same for the
/// same span.
pub assume_specification[ Duration::as_secs ](d: &Duration) -> (secs: u64)
    ensures
        secs == duration_secs(*d),
;

/// `Duration::subsec_nanos`: the part of the span beyond its whole seconds,
/// in nanoseconds; always less than one second.
pub assume_specification[ Duration::subsec_nanos ](d: &Duration) -> (nanos: u32)
    ensures
        nanos == duration_subsec_nanos(*d),
        nanos < 1_000_000_000,
;

/// `Instant::now`: a reading of the monotonic clock. Two readings may
/// differ, so nothing is claimed of the result.
#[verifier::external_body]
pub(crate) fn instant_now() -> Instant {
    Instant::now()
}

/// `Instant::elapsed`: the time that has passed since the reading `at`.
/// It depends on the clock, so nothing is claimed of the result.
#[verifier::external_body]
pub(crate) fn elapsed(at: &Instant) -> Duration {
    at.elapsed()
}

/// `OffsetDateTime::now_utc` and `OffsetDateTime::unix_timestamp_nanos`:
/// the wall clock, in nanoseconds since the Unix epoch. The count is made
/// of an `i64` of seconds and less than a second of nanoseconds, which is
/// all that is claimed of it.
#[verifier::external_body]
fn unix_now() -> (nanos: i128)
    ensures
        Timestamp::in_range(nanos as int),
{
    time::OffsetDateTime::now_utc().unix_timestamp_nanos()
}

/// The length of a span in nanoseconds.
pub open spec fn duration_nanos(d: Duration) -> nat {
    (duration_secs(d) * 1_000_000_000 + duration_subsec_nanos(d)) as nat
}

/// A point in time: nanoseconds since the Unix epoch, within what an `i64`
/// of seconds can reach.
#[derive(Clone, Copy, Debug, PartialEq, Eq)]
pub struct Timestamp {
    nanos: i128,
}

impl View for Timestamp {
    type V = int;

    closed spec fn view(&self) -> int {
        self.nanos as int
    }
}

impl Timestamp {
    /// The counts that a timestamp can hold.
    pub open spec fn in_range(nanos: int) -> bool {
        -9_223_372_036_854_775_808_000_000_000 <= nanos < 9_223_372_036_854_775_808_000_000_000
    }

    #[verifier::type_invariant]
    spec fn in_bounds(self) -> bool {
        Self::in_range(self.nanos as int)
    }

    /// The point in time `nanos` nanoseconds after the Unix epoch, or before
    /// it for a negative count; `None` for a count out of range.
    pub fn from_unix_nanos(nanos: i128) -> (r: Option<Self>)
        ensures
            match r {
                Some(t) => Self::in_range(nanos as int) && t@ == nanos,
                None => !Self::in_range(nanos as int),
            },
    {
        if -9_223_372_036_854_775_808_000_000_000 <= nanos && nanos
            < 9_223_372_036_854_775_808_000_000_000 {
            Some(Timestamp { nanos })
        } else {
            None
        }
    }

    /// Nanoseconds since the Unix epoch.
    pub fn unix_nanos(&self) -> (nanos: i128)
        ensures
            nanos == self@,
            Self::in_range(self@),
    {
        proof {
            use_type_invariant(self);
        }
        self.nanos
    }

    /// The wall clock's time. Two readings may differ; every reading lies
    /// within what a timestamp can hold.
    pub fn now() -> (t: Self)
        ensures
            Self::in_range(t@),
    {
        Timestamp { nanos: unix_now() }
    }

    /// The span between two points in time, whichever is the later: its
    /// whole seconds and the nanoseconds beyond them.
    pub fn distance(&self, other: &Timestamp) -> (span: (u64, u32))
        ensures
            span == span_parts(abs_diff(self@, other@)),
            span.1 < 1_000_000_000,
    {
        let a = self.unix_nanos();
        let b = other.unix_nanos();
        let d: i128 = if a >= b {
            a - b
        } else {
            b - a
        };
        ((d / 1_000_000_000) as u64, (d % 1_000_000_000) as u32)
    }
}

/// The distance between two counts.
pub open spec fn abs_diff(a: int, b: int) -> nat {
    if a >= b {
        (a - b) as nat
    } else {
        (b - a) as nat
    }
}

/// A count of nanoseconds as whole seconds and the nanoseconds beyond them.
pub open spec fn span_parts(nanos: nat) -> (u64, u32) {
    ((nanos / 1_000_000_000) as u64, (nanos % 1_000_000_000) as u32)
}

/// The length of a span in nanoseconds.
pub fn span_nanos(d: &Duration) -> (nanos: u128)
    ensures
        nanos == duration_nanos(*d),
        nanos < 18_446_744_073_709_551_616_000_000_000,
{
    let secs: u64 = d.as_secs();
    let sub: u32 = d.subsec_nanos();
    (secs as u128) * 1_000_000_000 + (sub as u128)
}

} // verus!
