//! Conversion of the timestamps that Messages stores (seconds, milliseconds,
//! microseconds or nanoseconds since 2001-01-01 UTC) into UTC instants.
use chrono::TimeZone;
use vstd::prelude::*;

verus! {

/// Seconds from the Unix epoch to 2001-01-01T00:00:00Z.
pub const APPLE_EPOCH_UNIX_SECS: i64 = 978_307_200;

/// An instant in UTC, as chrono's `DateTime<Utc>` presents it: whole seconds
/// since the Unix epoch and the nanoseconds past that second.
#[derive(Debug, Clone, Copy, PartialEq, Eq)]
pub struct UtcDateTime {
    secs: i64,
    nanos: u32,
}

/// What chrono's `DateTime::from_timestamp` (reached through
/// `Utc.timestamp_opt(..).single()`) returns for these arguments, taken as
/// the instant's seconds and nanoseconds.
pub uninterp spec fn chrono_from_timestamp(secs: i64, nsecs: u32) -> Option<(i64, u32)>;

/// `Utc.timestamp_opt(secs, nsecs).single()`, read back through
/// `DateTime::timestamp` and `DateTime::timestamp_subsec_nanos`.
///
/// Claimed, from chrono's source and documentation: the result round-trips
/// (a `Some` holds exactly `secs` and `nsecs`); a nanosecond count of two
/// seconds or more, or of one second or more outside the last second of a
/// minute, is refused; and any whole-second count within ±8·10^12 (about
/// ±253,000 years, inside chrono's range of years -262143..=262142) with a
/// nanosecond count below one second is accepted. Which larger second counts
/// chrono accepts is left to the name `chrono_from_timestamp`.
#[verifier::external_body]
fn utc_timestamp_opt(secs: i64, nsecs: u32) -> (res: Option<(i64, u32)>)
    ensures
        res == chrono_from_timestamp(secs, nsecs),
        res matches Some(t) ==> t == (secs, nsecs),
        nsecs >= 2_000_000_000 ==> res is None,
        (nsecs >= 1_000_000_000 && secs % 60 != 59) ==> res is None,
        (-8_000_000_000_000 <= secs <= 8_000_000_000_000 && nsecs < 1_000_000_000) ==> res
            == Some((secs, nsecs)),
{
    match chrono::Utc.timestamp_opt(secs, nsecs).single() {
        Some(dt) => Some((dt.timestamp(), dt.timestamp_subsec_nanos())),
        None => None,
    }
}

/// The instant chrono accepts for these seconds and nanoseconds, if any.
pub closed spec fn utc_instant(secs: i64, nsecs: u32) -> Option<UtcDateTime> {
    match chrono_from_timestamp(secs, nsecs) {
        Some(t) => Some(UtcDateTime { secs: t.0, nanos: t.1 }),
        None => None,
    }
}

impl UtcDateTime {
    /// Whole seconds since the Unix epoch.
    pub closed spec fn secs_spec(self) -> i64 {
        self.secs
    }

    /// Nanoseconds past the whole second.
    pub closed spec fn nanos_spec(self) -> u32 {
        self.nanos
    }

    /// `DateTime::from_timestamp`: the instant `secs` seconds and `nsecs`
    /// nanoseconds after the Unix epoch, when chrono can represent it.
    pub fn from_timestamp(secs: i64, nsecs: u32) -> (res: Option<UtcDateTime>)
        ensures
            res == utc_instant(secs, nsecs),
            res matches Some(t) ==> t.secs_spec() == secs && t.nanos_spec() == nsecs,
            (-8_000_000_000_000 <= secs <= 8_000_000_000_000 && nsecs < 1_000_000_000) ==> res
                is Some,
    {
        match utc_timestamp_opt(secs, nsecs) {
            Some(t) => Some(UtcDateTime { secs: t.0, nanos: t.1 }),
            None => None,
        }
    }

    /// `DateTime::timestamp`.
    pub fn timestamp(&self) -> (res: i64)
        ensures
            res == self.secs_spec(),
    {
        self.secs
    }

    /// `DateTime::timestamp_subsec_nanos`.
    pub fn timestamp_subsec_nanos(&self) -> (res: u32)
        ensures
            res == self.nanos_spec(),
    {
        self.nanos
    }
}

/// How a raw Messages timestamp splits into seconds and nanoseconds since
/// 2001-01-01, told apart by size: values above 10^17 count nanoseconds
/// (any date after early 2004 is above that in nanoseconds), above 10^15
/// microseconds, above 10^12 milliseconds, and anything else seconds.
pub open spec fn apple_parts(raw: i64) -> (int, int) {
    if raw > 100_000_000_000_000_000 {
        (raw / 1_000_000_000, (raw % 1_000_000_000) as int)
    } else if raw > 1_000_000_000_000_000 {
        (raw / 1_000_000, (raw % 1_000_000) as int * 1_000)
    } else if raw > 1_000_000_000_000 {
        (raw / 1_000, (raw % 1_000) as int * 1_000_000)
    } else {
        (raw as int, 0)
    }
}

/// The UTC instant of a raw Messages timestamp, as chrono computes it.
pub open spec fn apple_instant(raw: i64) -> Option<UtcDateTime> {
    let (secs, nsecs) = apple_parts(raw);
    utc_instant((APPLE_EPOCH_UNIX_SECS + secs) as i64, nsecs as u32)
}

/// Converts a raw Messages timestamp to UTC.
///
/// The result is `None` only where chrono cannot represent the instant; every
/// raw value from -7·10^12 upwards converts.
pub fn apple_timestamp_to_utc(raw: i64) -> (res: Option<UtcDateTime>)
    ensures
        res == apple_instant(raw),
        raw >= -7_000_000_000_000 ==> res is Some,
        res matches Some(t) ==> t.secs_spec() == APPLE_EPOCH_UNIX_SECS + apple_parts(raw).0
            && t.nanos_spec() == apple_parts(raw).1,
{
    let (secs, nsecs): (i64, u32) = if raw > 100_000_000_000_000_000 {
        (raw / 1_000_000_000, (raw % 1_000_000_000) as u32)
    } else if raw > 1_000_000_000_000_000 {
        (raw / 1_000_000, ((raw % 1_000_000) * 1_000) as u32)
    } else if raw > 1_000_000_000_000 {
        (raw / 1_000, ((raw % 1_000) * 1_000_000) as u32)
    } else {
        (raw, 0)
    };
    UtcDateTime::from_timestamp(APPLE_EPOCH_UNIX_SECS + secs, nsecs)
}

} // verus!
