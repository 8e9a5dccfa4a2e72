//! Signed durations with nanosecond precision.
//!
//! A [`TimeSpan`] is a moment or length on a speedrun clock, in the range that
//! a timing engine can report. A [`TimeDelta`] is the signed distance between
//! two time spans; it is wide enough to hold the difference of any two of them.
use vstd::prelude::*;

verus! {

/// Nanoseconds in one millisecond.
pub const NANOS_PER_MILLISECOND: i128 = 1_000_000;

/// Nanoseconds in one second.
pub const NANOS_PER_SECOND: i128 = 1_000_000_000;

/// Nanoseconds in one minute.
pub const NANOS_PER_MINUTE: i128 = 60_000_000_000;

/// Nanoseconds in one hour.
pub const NANOS_PER_HOUR: i128 = 3_600_000_000_000;

/// The longest time span: `i64::MAX` seconds and 999,999,999 nanoseconds.
pub const MAX_NANOSECONDS: i128 = 9_223_372_036_854_775_807_999_999_999;

/// The most negative time span: `i64::MIN` seconds and -999,999,999 nanoseconds.
pub const MIN_NANOSECONDS: i128 = -9_223_372_036_854_775_808_999_999_999;

/// The largest difference between two time spans.
pub const MAX_DELTA_NANOSECONDS: i128 = 18_446_744_073_709_551_616_999_999_998;

/// Whether `nanos` is a nanosecond count that a [`TimeSpan`] can hold.
pub open spec fn span_in_range(nanos: int) -> bool {
    MIN_NANOSECONDS <= nanos <= MAX_NANOSECONDS
}

/// Whether `nanos` is a nanosecond count that a [`TimeDelta`] can hold.
pub open spec fn delta_in_range(nanos: int) -> bool {
    -MAX_DELTA_NANOSECONDS <= nanos <= MAX_DELTA_NANOSECONDS
}

/// A signed span of time, counted in nanoseconds.
#[derive(Clone, Copy, Debug, PartialEq, Eq, Structural)]
pub struct TimeSpan {
    nanos: i128,
}

impl View for TimeSpan {
    type V = int;

    /// The span as a number of nanoseconds.
    closed spec fn view(&self) -> int {
        self.nanos as int
    }
}

impl TimeSpan {
    #[verifier::type_invariant]
    spec fn in_range(self) -> bool {
        span_in_range(self.nanos as int)
    }

    /// The span of zero length.
    pub fn zero() -> (span: TimeSpan)
        ensures
            span@ == 0,
    {
        TimeSpan { nanos: 0 }
    }

    /// The span of `nanos` nanoseconds, or `None` where that is out of range.
    pub fn from_nanoseconds(nanos: i128) -> (span: Option<TimeSpan>)
        ensures
            span is Some <==> span_in_range(nanos as int),
            span matches Some(s) ==> s@ == nanos,
    {
        if MIN_NANOSECONDS <= nanos && nanos <= MAX_NANOSECONDS {
            Some(TimeSpan { nanos })
        } else {
            None
        }
    }

    /// The span of `millis` milliseconds.
    pub fn from_milliseconds(millis: i64) -> (span: TimeSpan)
        ensures
            span@ == millis * NANOS_PER_MILLISECOND,
    {
        let wide: i128 = millis as i128;
        TimeSpan { nanos: wide * NANOS_PER_MILLISECOND }
    }

    /// The span of `seconds` seconds.
    pub fn from_seconds(seconds: i64) -> (span: TimeSpan)
        ensures
            span@ == seconds * NANOS_PER_SECOND,
    {
        let wide: i128 = seconds as i128;
        TimeSpan { nanos: wide * NANOS_PER_SECOND }
    }

    /// The span as a number of nanoseconds.
    pub fn nanoseconds(self) -> (nanos: i128)
        ensures
            nanos == self@,
            span_in_range(nanos as int),
    {
        proof {
            use_type_invariant(self);
        }
        self.nanos
    }

    /// Whether the span is longer than zero.
    pub fn is_positive(self) -> (positive: bool)
        ensures
            positive == (self@ > 0),
    {
        self.nanos > 0
    }

    /// Whether the span is shorter than zero.
    pub fn is_negative(self) -> (negative: bool)
        ensures
            negative == (self@ < 0),
    {
        self.nanos < 0
    }

    /// The signed distance from `other` to `self`.
    pub fn minus(self, other: TimeSpan) -> (delta: TimeDelta)
        ensures
            delta@ == self@ - other@,
    {
        proof {
            use_type_invariant(self);
            use_type_invariant(other);
        }
        TimeDelta { nanos: self.nanos - other.nanos }
    }
}

/// The signed difference of two time spans, counted in nanoseconds.
#[derive(Clone, Copy, Debug, PartialEq, Eq, Structural)]
pub struct TimeDelta {
    nanos: i128,
}

impl View for TimeDelta {
    type V = int;

    /// The difference as a number of nanoseconds.
    closed spec fn view(&self) -> int {
        self.nanos as int
    }
}

impl TimeDelta {
    #[verifier::type_invariant]
    spec fn in_range(self) -> bool {
        delta_in_range(self.nanos as int)
    }

    /// The difference of two equal time spans.
    pub fn zero() -> (delta: TimeDelta)
        ensures
            delta@ == 0,
    {
        TimeDelta { nanos: 0 }
    }

    /// The difference of `nanos` nanoseconds, or `None` where that is out of range.
    pub fn from_nanoseconds(nanos: i128) -> (delta: Option<TimeDelta>)
        ensures
            delta is Some <==> delta_in_range(nanos as int),
            delta matches Some(d) ==> d@ == nanos,
    {
        if -MAX_DELTA_NANOSECONDS <= nanos && nanos <= MAX_DELTA_NANOSECONDS {
            Some(TimeDelta { nanos })
        } else {
            None
        }
    }

    /// The difference as a number of nanoseconds.
    pub fn nanoseconds(self) -> (nanos: i128)
        ensures
            nanos == self@,
            delta_in_range(nanos as int),
    {
        proof {
            use_type_invariant(self);
        }
        self.nanos
    }

    /// Whether the first time span was the longer one.
    pub fn is_positive(self) -> (positive: bool)
        ensures
            positive == (self@ > 0),
    {
        self.nanos > 0
    }

    /// Whether the first time span was the shorter one.
    pub fn is_negative(self) -> (negative: bool)
        ensures
            negative == (self@ < 0),
    {
        self.nanos < 0
    }
}

} // verus!
