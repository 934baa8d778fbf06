//! Points in time.
use vstd::prelude::*;

verus! {

/// A point in time in UTC.
#[derive(Debug, Clone, Copy, PartialEq, Eq, Structural)]
pub struct Timestamp {
    /// Non-leap seconds since the beginning of 1970.
    pub seconds: i64,
    /// Nanoseconds since the last second boundary; a second or more within a leap second.
    pub nanos: u32,
}

impl Timestamp {
    /// Whether a clock can show this time: not before 1970, and in no leap second.
    pub open spec fn is_clock_time(self) -> bool {
        self.seconds >= 0 && self.nanos < 1_000_000_000
    }
}

/// The point in time that `chrono::DateTime::parse_from_rfc3339` reads from `text`:
/// its seconds since 1970 and its nanoseconds, or `None` where it reports an error.
pub uninterp spec fn rfc3339_instant(text: Seq<char>) -> Option<(i64, u32)>;

/// What `parse_rfc3339` returns for `text`.
pub open spec fn timestamp_of(text: Seq<char>) -> Option<Timestamp> {
    match rfc3339_instant(text) {
        Some((seconds, nanos)) => Some(Timestamp { seconds, nanos }),
        None => None,
    }
}

/// Calls `chrono::DateTime::parse_from_rfc3339`, whose result depends on the text alone,
/// and hands out the UTC seconds and the nanoseconds of what it read. Two of chrono's
/// times are equal exactly where both numbers are.
#[verifier::external_body]
pub(crate) fn parse_rfc3339(text: &str) -> (r: Option<(i64, u32)>)
    ensures
        r == rfc3339_instant(text@),
{
    chrono::DateTime::parse_from_rfc3339(text)
        .ok()
        .map(|d| (d.timestamp(), d.timestamp_subsec_nanos()))
}

/// Calls `chrono::Utc::now`, which reads the system's clock: what it returns is a time
/// that is not before 1970 and in no leap second. Which one is left unsaid, as it differs
/// from call to call. With a clock set before 1970 the call does not return.
#[verifier::external_body]
pub(crate) fn utc_now() -> (r: Timestamp)
    ensures
        r.is_clock_time(),
{
    let now = chrono::Utc::now();
    Timestamp { seconds: now.timestamp(), nanos: now.timestamp_subsec_nanos() }
}

/// A clock shows every time from 1970 on outside of leap seconds, and no other.
pub proof fn law_clock_times(t: Timestamp)
    ensures
        t.is_clock_time() <==> 0 <= t.seconds && t.nanos <= 999_999_999,
{
}

/// A time that can be read is taken over as it is, to the nanosecond, and one that cannot is
/// missing.
pub proof fn law_times_are_taken_over(text: Seq<char>)
    ensures
        rfc3339_instant(text) matches Some((seconds, nanos)) ==> (timestamp_of(text) matches Some(t)
            && t.seconds == seconds && t.nanos == nanos),
        rfc3339_instant(text) is None ==> timestamp_of(text) is None,
{
}

} // verus!
