//! Instants of the UTC clock: reading them from RFC 3339 text and counting
//! the whole hours between two of them. Both are the work of `chrono`; this
//! module states what it relies on.

use vstd::prelude::*;
use vstd::string::StringExecFns;

verus! {

/// An instant as `chrono` counts it: `secs` whole seconds since
/// 1970-01-01T00:00:00 UTC, leap seconds not counted, and `nanos`
/// nanoseconds into that second. Within a leap second `secs` stays on the
/// second before it, which ends a minute, and `nanos` runs on from
/// 1,000,000,000.
pub struct Instant {
    pub secs: int,
    pub nanos: int,
}

/// The instants that a `Timestamp` can hold: within 8 * 10^12 seconds of
/// 1970, a quarter of a million years either way, and with `nanos` of a
/// thousand million or more only in the last second of a minute.
pub open spec fn representable(instant: Instant) -> bool {
    &&& -8_000_000_000_000 <= instant.secs <= 8_000_000_000_000
    &&& 0 <= instant.nanos < 2_000_000_000
    &&& instant.nanos >= 1_000_000_000 ==> instant.secs % 60 == 59
}

/// The time from `earlier` to `later` in whole seconds, the fraction
/// dropped towards zero. A leap second that `earlier` lies in counts as a
/// second of its own when `later` is later in its day, and likewise with
/// the two exchanged.
pub open spec fn whole_seconds(later: Instant, earlier: Instant) -> int {
    let later_in_day = later.secs % 86_400;
    let earlier_in_day = earlier.secs % 86_400;
    let leap = if later_in_day > earlier_in_day && earlier.nanos >= 1_000_000_000 {
        1
    } else if later_in_day < earlier_in_day && later.nanos >= 1_000_000_000 {
        -1
    } else {
        0int
    };
    let fraction = later.nanos - earlier.nanos;
    let seconds = later.secs - earlier.secs + leap + fraction / 1_000_000_000;
    if seconds < 0 && fraction % 1_000_000_000 > 0 {
        seconds + 1
    } else {
        seconds
    }
}

/// The time from `earlier` to `later` in whole hours, the fraction dropped
/// towards zero: 59 minutes are 0 hours, and so are 59 minutes back.
pub open spec fn whole_hours(later: Instant, earlier: Instant) -> int {
    let seconds = whole_seconds(later, earlier);
    if seconds >= 0 {
        seconds / 3600
    } else {
        -((-seconds) / 3600)
    }
}

/// `a` is a later instant than `b`.
pub open spec fn later(a: Instant, b: Instant) -> bool {
    a.secs > b.secs || (a.secs == b.secs && a.nanos > b.nanos)
}

/// The instant a number of days of 86,400 seconds before another.
pub open spec fn days_before(instant: Instant, days: int) -> Instant {
    Instant { secs: instant.secs - days * 86_400, nanos: instant.nanos }
}

/// What `chrono` reads from a text as an RFC 3339 date and time: the
/// instant on the UTC clock as seconds and nanoseconds, or nothing where it
/// rejects the text.
pub uninterp spec fn rfc3339_instant(text: Seq<char>) -> Option<(int, int)>;

/// Calls `chrono::DateTime::parse_from_rfc3339` and hands out the parsed
/// instant on the UTC clock by its `timestamp` and `timestamp_subsec_nanos`.
/// Nothing is claimed but that the outcome depends on the text alone: which
/// texts are read, and as what, is `chrono`'s to say.
#[verifier::external_body]
fn chrono_parse_rfc3339(text: &str) -> (parts: Option<(i64, u32)>)
    ensures
        match parts {
            Some((secs, nanos)) => rfc3339_instant(text@) == Some((secs as int, nanos as int)),
            None => rfc3339_instant(text@) is None,
        },
{
    match chrono::DateTime::parse_from_rfc3339(text) {
        Ok(parsed) => {
            let utc = parsed.naive_utc().and_utc();
            Some((utc.timestamp(), utc.timestamp_subsec_nanos()))
        },
        Err(_) => None,
    }
}

/// Rebuilds both instants with `chrono::DateTime::from_timestamp`,
/// subtracts their `naive_utc` values and takes `TimeDelta::num_hours` of
/// the difference.
///
/// Two things are claimed. `from_timestamp` accepts every representable
/// instant: its dates reach from the year -262143 to the year 262142, and it
/// takes `nanos` of a thousand million or more in the last second of a
/// minute. And the hours are those of `whole_hours`: the difference of two
/// `NaiveDateTime` is the difference of the days plus that of the times of
/// day, with the correction for a leap second that `whole_seconds` spells
/// out; `num_seconds` drops the fraction towards zero, and `num_hours`
/// divides by 3600 as Rust divides integers.
#[verifier::external_body]
fn chrono_whole_hours(
    later_secs: i64,
    later_nanos: u32,
    earlier_secs: i64,
    earlier_nanos: u32,
) -> (hours: i64)
    requires
        representable(Instant { secs: later_secs as int, nanos: later_nanos as int }),
        representable(Instant { secs: earlier_secs as int, nanos: earlier_nanos as int }),
    ensures
        hours == whole_hours(
            Instant { secs: later_secs as int, nanos: later_nanos as int },
            Instant { secs: earlier_secs as int, nanos: earlier_nanos as int },
        ),
{
    let later = chrono::DateTime::from_timestamp(later_secs, later_nanos).unwrap();
    let earlier = chrono::DateTime::from_timestamp(earlier_secs, earlier_nanos).unwrap();
    (later.naive_utc() - earlier.naive_utc()).num_hours()
}

/// An instant of the UTC clock.
#[derive(Debug, Clone, Copy, PartialEq, Eq)]
pub struct Timestamp {
    secs: i64,
    nanos: u32,
}

impl View for Timestamp {
    type V = Instant;

    closed spec fn view(&self) -> Instant {
        Instant { secs: self.secs as int, nanos: self.nanos as int }
    }
}

impl Timestamp {
    #[verifier::type_invariant]
    spec fn valid(&self) -> bool {
        representable(self@)
    }

    /// The timestamp of an instant given by its seconds and nanoseconds, if
    /// it is representable.
    pub fn from_parts(secs: i64, nanos: u32) -> (timestamp: Option<Timestamp>)
        ensures
            match timestamp {
                Some(t) => t@ == (Instant { secs: secs as int, nanos: nanos as int })
                    && representable(t@),
                None => !representable(Instant { secs: secs as int, nanos: nanos as int }),
            },
    {
        if secs < -8_000_000_000_000 || secs > 8_000_000_000_000 || nanos >= 2_000_000_000 {
            return None;
        }
        if nanos >= 1_000_000_000 {
            let in_minute = secs % 60;
            if in_minute != 59 && in_minute != -1 {
                return None;
            }
        }
        Some(Timestamp { secs, nanos })
    }

    /// Seconds since 1970-01-01T00:00:00 UTC.
    pub fn secs(&self) -> (secs: i64)
        ensures
            secs == self@.secs,
    {
        self.secs
    }

    /// Nanoseconds into the second.
    pub fn nanos(&self) -> (nanos: u32)
        ensures
            nanos == self@.nanos,
    {
        self.nanos
    }

    /// Whether this instant is later than `days` days before `now`.
    pub fn within_days(&self, now: &Timestamp, days: u32) -> (within: bool)
        ensures
            within == later(self@, days_before(now@, days as int)),
    {
        proof {
            use_type_invariant(self);
            use_type_invariant(now);
        }
        let limit: i64 = now.secs - (days as i64) * 86_400;
        self.secs > limit || (self.secs == limit && self.nanos > now.nanos)
    }

    /// The whole hours from `earlier` to this instant; negative where
    /// `earlier` is the later one by an hour or more.
    pub fn hours_since(&self, earlier: &Timestamp) -> (hours: i64)
        ensures
            hours == whole_hours(self@, earlier@),
    {
        proof {
            use_type_invariant(self);
            use_type_invariant(earlier);
        }
        chrono_whole_hours(self.secs, self.nanos, earlier.secs, earlier.nanos)
    }
}

/// A text that is no RFC 3339 date and time.
#[derive(Debug, Clone, PartialEq, Eq)]
pub struct TimestampParseError {
    pub text: String,
}

/// The instant that a text stands for, where it is read as an RFC 3339 date
/// and time and the instant is representable.
pub open spec fn parsed_instant(text: Seq<char>) -> Option<Instant> {
    match rfc3339_instant(text) {
        Some((secs, nanos)) => {
            let instant = Instant { secs, nanos };
            if representable(instant) {
                Some(instant)
            } else {
                None
            }
        },
        None => None,
    }
}

/// Reads an RFC 3339 date and time, such as `2023-05-01T10:00:00+02:00`,
/// as an instant of the UTC clock. The error holds the text that was not
/// read.
pub fn parse_timestamp(text: &str) -> (result: Result<Timestamp, TimestampParseError>)
    ensures
        match result {
            Ok(timestamp) => parsed_instant(text@) == Some(timestamp@),
            Err(error) => parsed_instant(text@) is None && error.text@ == text@,
        },
{
    match chrono_parse_rfc3339(text) {
        Some((secs, nanos)) => match Timestamp::from_parts(secs, nanos) {
            Some(timestamp) => Ok(timestamp),
            None => Err(TimestampParseError { text: String::from_str(text) }),
        },
        None => Err(TimestampParseError { text: String::from_str(text) }),
    }
}

} // verus!
