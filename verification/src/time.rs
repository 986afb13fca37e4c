//! Points in time, spans of time and ISO 8601 durations.
//!
//! A point in time is held as whole seconds since the Unix epoch and a
//! nanosecond part; an ISO 8601 duration as the IEEE-754 bit patterns of its
//! six components (the form the duration parser produces).

use vstd::prelude::*;

verus! {

/// Nanoseconds in one second.
pub const NANOS_PER_SEC: u32 = 1_000_000_000u32;

/// A point in time: `secs` seconds and `nanos` nanoseconds after the Unix epoch.
#[derive(Debug, Clone, Copy, PartialEq, Eq, Hash, Structural)]
pub struct Timestamp {
    pub secs: i64,
    pub nanos: u32,
}

/// The nanosecond part is below one second.
pub open spec fn timestamp_wf(t: Timestamp) -> bool {
    t.nanos < 1_000_000_000
}

/// Nanoseconds since the Unix epoch.
pub open spec fn instant(t: Timestamp) -> int {
    t.secs * 1_000_000_000 + t.nanos
}

impl Timestamp {
    /// The Unix epoch.
    pub fn unix_epoch() -> (r: Timestamp)
        ensures
            instant(r) == 0,
            timestamp_wf(r),
    {
        Timestamp { secs: 0, nanos: 0 }
    }

    /// The latest point in time the calendar can represent,
    /// +262142-12-31T23:59:59.999999999Z.
    pub fn max_utc() -> (r: Timestamp)
        ensures
            r == max_utc_spec(),
    {
        Timestamp { secs: 8210266876799i64, nanos: 999_999_999u32 }
    }

    /// `self` comes strictly before `other`.
    pub fn before(&self, other: &Timestamp) -> (r: bool)
        requires
            timestamp_wf(*self),
            timestamp_wf(*other),
        ensures
            r == (instant(*self) < instant(*other)),
    {
        self.secs < other.secs || (self.secs == other.secs && self.nanos < other.nanos)
    }
}

/// The latest representable point in time.
pub open spec fn max_utc_spec() -> Timestamp {
    Timestamp { secs: 8210266876799i64, nanos: 999_999_999u32 }
}

/// A signed span of time: `secs` seconds and `nanos` nanoseconds, both of the
/// same sign, `|nanos|` below one second.
#[derive(Debug, Clone, Copy, PartialEq, Eq, Hash, Structural)]
pub struct TimeDelta {
    pub secs: i64,
    pub nanos: i32,
}

/// Length of a span in nanoseconds.
pub open spec fn delta_nanos(d: TimeDelta) -> int {
    d.secs * 1_000_000_000 + d.nanos
}

/// An ISO 8601 duration: the IEEE-754 single precision bit patterns of its
/// years, months, days, hours, minutes and seconds. Its text form and its
/// length at a given point in time are computed on the floating point values
/// and so by the application around this library.
#[derive(Debug, Clone, Copy, PartialEq, Eq, Hash, Structural)]
pub struct Duration {
    pub year: u32,
    pub month: u32,
    pub day: u32,
    pub hour: u32,
    pub minute: u32,
    pub second: u32,
}

/// The components of a duration as plain values.
pub open spec fn duration_parts(d: Duration) -> (u32, u32, u32, u32, u32, u32) {
    (d.year, d.month, d.day, d.hour, d.minute, d.second)
}

/// The duration an ISO 8601 text denotes, if it is one.
pub uninterp spec fn duration_of_text(s: Seq<char>) -> Option<(u32, u32, u32, u32, u32, u32)>;

/// Why a text is not an ISO 8601 duration.
#[derive(Debug, Clone, PartialEq, Eq)]
pub struct DurationParseError {
    /// The text that was given.
    pub input: String,
    /// Byte position at which reading stopped.
    pub position: usize,
}

/// Reads an ISO 8601 duration with `<iso8601_duration::Duration as FromStr>`.
/// Claimed: success and the components read are a function of the text (named
/// `duration_of_text`); a failure reports the position the parser stopped at.
#[verifier::external_body]
fn parse_duration(s: &str) -> (r: Result<Duration, usize>)
    ensures
        r matches Ok(d) ==> duration_of_text(s@) == Some(duration_parts(d)),
        r is Err <==> duration_of_text(s@) is None,
{
    match s.parse::<iso8601_duration::Duration>() {
        Ok(d) => Ok(Duration {
            year: d.year.to_bits(),
            month: d.month.to_bits(),
            day: d.day.to_bits(),
            hour: d.hour.to_bits(),
            minute: d.minute.to_bits(),
            second: d.second.to_bits(),
        }),
        Err(e) => Err(e.position),
    }
}

impl Duration {
    /// One hour, `PT1H`.
    pub fn pt1h() -> (r: Duration)
        ensures
            r == (Duration { year: 0, month: 0, day: 0, hour: 0x3f80_0000u32, minute: 0, second: 0 }),
    {
        Duration { year: 0, month: 0, day: 0, hour: 0x3f80_0000u32, minute: 0, second: 0 }
    }

    /// 9999 years, `P9999Y`: an event whose intervals continue until it is
    /// deleted or modified.
    pub fn p999y() -> (r: Duration)
        ensures
            r == (Duration { year: 0x461c_3c00u32, month: 0, day: 0, hour: 0, minute: 0, second: 0 }),
    {
        Duration { year: 0x461c_3c00u32, month: 0, day: 0, hour: 0, minute: 0, second: 0 }
    }

    /// A duration of `hour_bits` hours, given as the bit pattern of the number of hours.
    pub fn hours(hour_bits: u32) -> (r: Duration)
        ensures
            r == (Duration { year: 0, month: 0, day: 0, hour: hour_bits, minute: 0, second: 0 }),
    {
        Duration { year: 0, month: 0, day: 0, hour: hour_bits, minute: 0, second: 0 }
    }

    /// Reads an ISO 8601 duration such as `PT1H` or `P0Y0M0DT1H0M0S`.
    pub fn parse(s: &str) -> (r: Result<Duration, DurationParseError>)
        ensures
            r matches Ok(d) ==> duration_of_text(s@) == Some(duration_parts(d)),
            r is Err <==> duration_of_text(s@) is None,
            r matches Err(e) ==> e.input@ == s@,
    {
        match parse_duration(s) {
            Ok(d) => Ok(d),
            Err(position) => Err(DurationParseError { input: s.to_owned(), position }),
        }
    }
}

impl std::str::FromStr for Duration {
    type Err = DurationParseError;

    fn from_str(s: &str) -> (r: Result<Self, Self::Err>)
        ensures
            r matches Ok(d) ==> duration_of_text(s@) == Some(duration_parts(d)),
            r is Err <==> duration_of_text(s@) is None,
            r matches Err(e) ==> e.input@ == s@,
    {
        Duration::parse(s)
    }
}

/// Temporal aspects of intervals: a start, a duration (absent: unbounded) and a
/// randomization that may be applied to the start (absent: none).
#[derive(Debug, Clone, Copy, PartialEq, Eq)]
pub struct IntervalPeriod {
    pub start: Timestamp,
    pub duration: Option<Duration>,
    pub randomize_start: Option<Duration>,
}

impl IntervalPeriod {
    /// A period starting at `start`, unbounded and without randomization.
    pub fn new(start: Timestamp) -> (r: IntervalPeriod)
        ensures
            r == (IntervalPeriod { start, duration: None, randomize_start: None }),
    {
        IntervalPeriod { start, duration: None, randomize_start: None }
    }
}

} // verus!
