//! Instants on the UTC time line, the clock, and RFC 3339 text.

use vstd::prelude::*;

verus! {

/// An instant: whole seconds since the Unix epoch, and the nanoseconds into
/// that second. During a leap second `nanos` runs past 999,999,999, so two
/// instants are ordered by `secs` first and by `nanos` second.
#[derive(Clone, Copy, Debug, PartialEq, Eq, Structural)]
pub struct Timestamp {
    pub secs: i64,
    pub nanos: u32,
}

/// `secs` is a number of seconds that a `Timestamp` can hold.
pub open spec fn seconds_fit(secs: int) -> bool {
    i64::MIN <= secs <= i64::MAX
}

impl Timestamp {
    /// `self` lies strictly later than `other`.
    pub open spec fn is_after(self, other: Timestamp) -> bool {
        self.secs > other.secs || (self.secs == other.secs && self.nanos > other.nanos)
    }

    /// The instant `seconds` later, the nanoseconds kept.
    pub open spec fn plus_seconds(self, seconds: int) -> Timestamp
        recommends
            seconds_fit(self.secs + seconds),
    {
        Timestamp { secs: (self.secs + seconds) as i64, nanos: self.nanos }
    }

    pub fn new(secs: i64, nanos: u32) -> (r: Timestamp)
        ensures
            r == (Timestamp { secs, nanos }),
    {
        Timestamp { secs, nanos }
    }

    /// Whether `self` lies strictly later than `other`.
    pub fn after(&self, other: &Timestamp) -> (r: bool)
        ensures
            r == self.is_after(*other),
    {
        self.secs > other.secs || (self.secs == other.secs && self.nanos > other.nanos)
    }

    /// The instant `seconds` later.
    pub fn add_seconds(&self, seconds: i64) -> (r: Timestamp)
        requires
            seconds_fit(self.secs + seconds),
        ensures
            r == self.plus_seconds(seconds as int),
    {
        Timestamp { secs: self.secs + seconds, nanos: self.nanos }
    }

    /// The instant `seconds` later, or `None` where that leaves the range of
    /// `secs`.
    pub fn checked_add_seconds(&self, seconds: i64) -> (r: Option<Timestamp>)
        ensures
            seconds_fit(self.secs + seconds) ==> r == Some(self.plus_seconds(seconds as int)),
            !seconds_fit(self.secs + seconds) ==> r is None,
    {
        match self.secs.checked_add(seconds) {
            Some(secs) => Some(Timestamp { secs, nanos: self.nanos }),
            None => None,
        }
    }
}

/// What RFC 3339 text denotes: the instant it names, or `None` where the
/// text is not a valid RFC 3339 date and time.
pub uninterp spec fn rfc3339_instant(text: Seq<char>) -> Option<Timestamp>;

/// No second that the clock reports reaches this bound.
pub const CLOCK_SECS_BOUND: i64 = 185_542_587_187_200i64;

#[verifier::external_type_specification]
#[verifier::external_body]
pub struct ExParseError(chrono::ParseError);

/// What every reading of the clock has in common: it lies at or after the
/// epoch and below `CLOCK_SECS_BOUND`, and it is no leap second.
pub open spec fn clock_reading(t: Timestamp) -> bool {
    0 <= t.secs < CLOCK_SECS_BOUND && t.nanos < 1_000_000_000
}

/// The current instant, from `chrono::Utc::now`.
///
/// Trusted: the clock is read from the system, so nothing is claimed about
/// which instant comes back. What is claimed holds of every instant that
/// chrono can return: it lies at or after the epoch, its day number fits
/// chrono's calendar (fewer than 2^31 days), and it is no leap second.
#[verifier::external_body]
pub(crate) fn now() -> (r: Timestamp)
    ensures
        clock_reading(r),
{
    let t = chrono::Utc::now();
    Timestamp { secs: t.timestamp(), nanos: t.timestamp_subsec_nanos() }
}

/// Reads RFC 3339 text with `chrono::DateTime::parse_from_rfc3339`.
///
/// Trusted: the instant returned is the one that chrono reads from the text,
/// as Unix seconds and the nanoseconds into the second; an error comes back
/// exactly where chrono rejects the text.
#[verifier::external_body]
pub(crate) fn read_rfc3339(text: &str) -> (r: Result<Timestamp, chrono::ParseError>)
    ensures
        r matches Ok(t) ==> rfc3339_instant(text@) == Some(t),
        r is Err ==> rfc3339_instant(text@) is None,
{
    let t = chrono::DateTime::parse_from_rfc3339(text)?;
    Ok(Timestamp { secs: t.timestamp(), nanos: t.timestamp_subsec_nanos() })
}

/// The instant that RFC 3339 text names, or `None` where the text is not a
/// valid RFC 3339 date and time.
pub fn parse_rfc3339(text: &str) -> (r: Option<Timestamp>)
    ensures
        r == rfc3339_instant(text@),
{
    match read_rfc3339(text) {
        Ok(instant) => Some(instant),
        Err(_) => None,
    }
}

} // verus!
