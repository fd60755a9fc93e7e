use vstd::prelude::*;
use chrono::{TimeZone, Utc};

verus! {

/// Seconds in one UTC day.
pub const SECONDS_PER_DAY: i64 = 86400;

/// Earliest Unix timestamp (in whole seconds) that a `chrono` date can have.
pub const CHRONO_MIN_SECS: i64 = -8334601228800;

/// Latest Unix timestamp (in whole seconds) that a `chrono` date can have.
pub const CHRONO_MAX_SECS: i64 = 8210266876799;

/// An instant in UTC: whole seconds since the Unix epoch and the nanoseconds
/// within that second (a leap second carries `nanos >= 1_000_000_000`).
#[derive(Clone, Copy, Debug, PartialEq, Eq, Structural)]
pub struct UtcTimestamp {
    pub secs: i64,
    pub nanos: u32,
}

/// `a` is not later than `b`: instants are ordered by second, then by the
/// nanoseconds within the second.
pub open spec fn at_or_before(a: UtcTimestamp, b: UtcTimestamp) -> bool {
    a.secs < b.secs || (a.secs == b.secs && a.nanos <= b.nanos)
}

/// `t` lies in the closed window `[from, to]`.
pub open spec fn within(t: UtcTimestamp, from: UtcTimestamp, to: UtcTimestamp) -> bool {
    at_or_before(from, t) && at_or_before(t, to)
}

/// The hour of the UTC day in which the second `secs` falls.
pub open spec fn hour_of_day(secs: int) -> int {
    (secs % 86400) / 3600
}

/// Whether `year` is a leap year of the proleptic Gregorian calendar.
pub open spec fn is_leap_year(year: int) -> bool {
    year % 4 == 0 && (year % 100 != 0 || year % 400 == 0)
}

/// Number of days of `month` (1 to 12) in `year`.
pub open spec fn days_in_month(year: int, month: int) -> int {
    if month == 2 {
        if is_leap_year(year) { 29 } else { 28 }
    } else if month == 4 || month == 6 || month == 9 || month == 11 {
        30
    } else {
        31
    }
}

/// The calendar date and time of day name an existing instant that `chrono`
/// can represent.
pub open spec fn valid_civil(year: int, month: int, day: int, hour: int, minute: int, second: int) -> bool {
    &&& -262143 <= year <= 262142
    &&& 1 <= month <= 12
    &&& 1 <= day <= days_in_month(year, month)
    &&& 0 <= hour < 24
    &&& 0 <= minute < 60
    &&& 0 <= second < 60
}

/// Days from 1970-01-01 to the given proleptic Gregorian date (negative
/// before it): years are counted from March so that the leap day comes
/// last, and whole 400-year eras hold 146097 days.
pub open spec fn days_from_civil(year: int, month: int, day: int) -> int {
    let y = if month <= 2 { year - 1 } else { year };
    let era = y / 400;
    let year_of_era = y - era * 400;
    let shifted_month = if month > 2 { month - 3 } else { month + 9 };
    let day_of_year = (153 * shifted_month + 2) / 5 + day - 1;
    let day_of_era = year_of_era * 365 + year_of_era / 4 - year_of_era / 100 + day_of_year;
    era * 146097 + day_of_era - 719468
}

/// The Unix timestamp of a UTC calendar date and time.
pub open spec fn civil_unix_seconds(year: int, month: int, day: int, hour: int, minute: int, second: int) -> int {
    days_from_civil(year, month, day) * 86400 + hour * 3600 + minute * 60 + second
}

impl UtcTimestamp {
    /// Whether `self` is not later than `other`.
    pub fn is_at_or_before(&self, other: &UtcTimestamp) -> (r: bool)
        ensures
            r == at_or_before(*self, *other),
    {
        self.secs < other.secs || (self.secs == other.secs && self.nanos <= other.nanos)
    }

    /// Whether `self` lies in the closed window `[from, to]`.
    pub fn is_within(&self, from: &UtcTimestamp, to: &UtcTimestamp) -> (r: bool)
        ensures
            r == within(*self, *from, *to),
    {
        from.is_at_or_before(self) && self.is_at_or_before(to)
    }

    /// The same instant `seconds` seconds earlier.
    pub fn minus_seconds(&self, seconds: i64) -> (r: UtcTimestamp)
        requires
            0 <= seconds,
            i64::MIN + seconds <= self.secs,
        ensures
            r.secs == self.secs - seconds,
            r.nanos == self.nanos,
    {
        UtcTimestamp { secs: self.secs - seconds, nanos: self.nanos }
    }

    /// The same instant `seconds` seconds later.
    pub fn plus_seconds(&self, seconds: i64) -> (r: UtcTimestamp)
        requires
            i64::MIN <= self.secs + seconds <= i64::MAX,
        ensures
            r.secs == self.secs + seconds,
            r.nanos == self.nanos,
    {
        UtcTimestamp { secs: self.secs + seconds, nanos: self.nanos }
    }

    /// The hour (0 to 23) of the UTC day in which this instant falls.
    pub fn utc_hour(&self) -> (h: u32)
        ensures
            h == hour_of_day(self.secs as int),
            h < 24,
    {
        let in_day: i64 = self.secs % SECONDS_PER_DAY;
        let in_day: i64 = if in_day < 0 { in_day + SECONDS_PER_DAY } else { in_day };
        let h: i64 = in_day / 3600;
        h as u32
    }
}

/// `chrono`'s `Utc.with_ymd_and_hms(..)`, taken as a Unix timestamp.
/// Trusted: the result exists exactly for an existing calendar date with a
/// valid time of day inside `chrono`'s year range; its seconds are the
/// proleptic Gregorian timestamp `civil_unix_seconds` of the arguments and
/// lie in `chrono`'s range, and it has no sub-second part.
#[verifier::external_body]
pub fn utc_datetime(year: i32, month: u32, day: u32, hour: u32, minute: u32, second: u32) -> (r: Option<UtcTimestamp>)
    ensures
        r is Some <==> valid_civil(year as int, month as int, day as int, hour as int, minute as int, second as int),
        r matches Some(t) ==> {
            &&& t.secs == civil_unix_seconds(year as int, month as int, day as int, hour as int, minute as int, second as int)
            &&& CHRONO_MIN_SECS <= t.secs <= CHRONO_MAX_SECS
            &&& t.nanos == 0
        },
{
    match Utc.with_ymd_and_hms(year, month, day, hour, minute, second).single() {
        Some(dt) => Some(UtcTimestamp { secs: dt.timestamp(), nanos: dt.timestamp_subsec_nanos() }),
        None => None,
    }
}


/// The hour of the day is the one whose hour-long slot of the UTC day holds
/// the second: `0 <= h < 24` and the second lies between `h:00:00` and
/// `h:59:59` of its day.
pub proof fn lemma_hour_slot(secs: int)
    ensures
        0 <= hour_of_day(secs) < 24,
        hour_of_day(secs) * 3600 <= secs % 86400 < hour_of_day(secs) * 3600 + 3600,
{
}

} // verus!
