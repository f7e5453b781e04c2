//! Moments of UTC and the clock that tells them.

use vstd::prelude::*;

verus! {

/// A moment of UTC: whole seconds since 1970-01-01T00:00:00 and the nanoseconds
/// beyond them.
#[derive(Clone, Copy, PartialEq, Eq, Structural, Debug)]
pub struct UtcTime {
    pub seconds: i64,
    pub nanos: u32,
}

/// The seconds of a day.
pub const SECONDS_PER_DAY: i64 = 86_400;

/// The first second that a date has: the start of the year -262143.
pub const FIRST_SECOND: i64 = -8_334_601_228_800;

/// The last second that a date has: the end of the year 262142.
pub const LAST_SECOND: i64 = 8_210_266_876_799;

/// The moment that `chrono::Utc::now` tells. It is not before the epoch, it has
/// a date, and its nanoseconds are less than a second. There is no such moment,
/// and chrono panics, on a machine whose clock is set before the epoch or
/// beyond the last date.
#[verifier::external_body]
pub(crate) fn now() -> (time: UtcTime)
    ensures
        time.is_clock_time(),
{
    let now = chrono::Utc::now();
    UtcTime { seconds: now.timestamp(), nanos: now.timestamp_subsec_nanos() }
}

impl UtcTime {
    /// Whether there is a date to which the moment belongs.
    pub open spec fn has_date(self) -> bool {
        FIRST_SECOND <= self.seconds <= LAST_SECOND
    }

    /// Whether the clock can tell the moment: it is not before the epoch, it has
    /// a date, and its nanoseconds are less than a second.
    pub open spec fn is_clock_time(self) -> bool {
        0 <= self.seconds <= LAST_SECOND && self.nanos < 1_000_000_000
    }

    /// Whether this moment comes before `other`.
    pub open spec fn is_before(self, other: UtcTime) -> bool {
        self.seconds < other.seconds || (self.seconds == other.seconds && self.nanos < other.nanos)
    }

    /// Whether this moment comes before `other`.
    pub fn precedes(&self, other: &UtcTime) -> (before: bool)
        ensures
            before == self.is_before(*other),
    {
        self.seconds < other.seconds || (self.seconds == other.seconds && self.nanos < other.nanos)
    }
}

/// The seconds of the moment `days` days before `time`.
pub open spec fn earlier_seconds(time: UtcTime, days: u32) -> int {
    time.seconds - days * SECONDS_PER_DAY
}

/// The moment `days` days before `time`, by chrono: `DateTime::from_timestamp`,
/// `Duration::try_days` and `DateTime::checked_sub_signed`, on which `DateTime -
/// Duration` rests. There is one where both moments have a date.
#[verifier::external_body]
pub(crate) fn days_earlier(time: &UtcTime, days: u32) -> (earlier: Option<UtcTime>)
    requires
        time.nanos < 1_000_000_000,
    ensures
        match earlier {
            Some(moment) => moment.seconds == earlier_seconds(*time, days) && moment.nanos
                == time.nanos && time.has_date() && moment.has_date(),
            None => !time.has_date() || earlier_seconds(*time, days) < FIRST_SECOND,
        },
{
    let start = chrono::DateTime::from_timestamp(time.seconds, time.nanos)?;
    let span = chrono::Duration::try_days(i64::from(days))?;
    let end = start.checked_sub_signed(span)?;
    Some(UtcTime { seconds: end.timestamp(), nanos: end.timestamp_subsec_nanos() })
}

} // verus!
