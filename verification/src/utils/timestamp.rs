//! Times of the database: microseconds since 2000-01-01 00:00:00 UTC.

use vstd::prelude::*;
use crate::utils::binary::TimestampTz;

verus! {

/// Seconds from 1970-01-01 to 2000-01-01.
pub const PG_EPOCH_OFFSET_SECS: i64 = 946_684_800;

/// Microseconds in a second.
pub const MICROS_PER_SECOND: i64 = 1_000_000;

/// The latest second of Unix time whose microseconds fit into a timestamp.
pub const MAX_UNIX_SECS: u64 = 9_223_372_036_853;

/// The timestamp of the instant `unix_secs` seconds and `subsec_micros`
/// microseconds after 1970-01-01 00:00:00 UTC.
pub open spec fn spec_postgres_timestamp(unix_secs: u64, subsec_micros: u32) -> int {
    unix_secs * MICROS_PER_SECOND + subsec_micros - PG_EPOCH_OFFSET_SECS * MICROS_PER_SECOND
}

/// The timestamp of the instant `unix_secs` seconds and `subsec_micros`
/// microseconds after 1970-01-01 00:00:00 UTC.
pub fn postgres_timestamp(unix_secs: u64, subsec_micros: u32) -> (t: TimestampTz)
    requires
        unix_secs <= MAX_UNIX_SECS,
        subsec_micros < 1_000_000,
    ensures
        t == spec_postgres_timestamp(unix_secs, subsec_micros),
{
    let micros: i64 = (unix_secs as i64) * MICROS_PER_SECOND + (subsec_micros as i64);
    micros - PG_EPOCH_OFFSET_SECS * MICROS_PER_SECOND
}

/// Nanoseconds in a second.
pub const NANOS_PER_SECOND: u32 = 1_000_000_000;

/// The timestamp of the instant that lies `since_epoch` behind 1970-01-01
/// 00:00:00 UTC, given as whole seconds and the nanoseconds of the second
/// begun; the nanoseconds count down to whole microseconds. There is no
/// timestamp where no instant is given, where the nanoseconds are no part of
/// a second, and where the instant is so late that its microseconds do not
/// fit.
pub open spec fn spec_timestamp_since_epoch(since_epoch: Option<(u64, u32)>) -> Option<int> {
    match since_epoch {
        Some((secs, nanos)) => if secs <= MAX_UNIX_SECS && nanos < NANOS_PER_SECOND {
            Some(spec_postgres_timestamp(secs, (nanos / 1000) as u32))
        } else {
            None
        },
        None => None,
    }
}

/// The timestamp of the instant that lies `since_epoch` behind 1970-01-01
/// 00:00:00 UTC, given as whole seconds and the nanoseconds of the second
/// begun.
pub fn timestamp_since_epoch(since_epoch: Option<(u64, u32)>) -> (t: Option<TimestampTz>)
    ensures
        match t {
            Some(ts) => spec_timestamp_since_epoch(since_epoch) == Some(ts as int),
            None => spec_timestamp_since_epoch(since_epoch) is None,
        },
{
    match since_epoch {
        Some((secs, nanos)) => {
            if secs <= MAX_UNIX_SECS && nanos < NANOS_PER_SECOND {
                Some(postgres_timestamp(secs, nanos / 1000))
            } else {
                None
            }
        },
        None => None,
    }
}

/// The text of the instant `secs` seconds and `nanos` nanoseconds after
/// 1970-01-01 00:00:00 UTC, as date, time of day to the millisecond and
/// `UTC`, if the calendar reaches that far.
pub uninterp spec fn spec_format_utc(secs: i64, nanos: u32) -> Option<Seq<char>>;

/// `DateTime::from_timestamp` and `DateTime::format` with the format
/// `%Y-%m-%d %H:%M:%S%.3f UTC`: the text of an instant, or nothing where
/// the instant is out of the range of the calendar.
#[verifier::external_body]
fn format_utc(secs: i64, nanos: u32) -> (r: Option<String>)
    requires
        nanos < 1_000_000_000,
    ensures
        (match r {
            Some(s) => Some(s@),
            None => None,
        }) == spec_format_utc(secs, nanos),
{
    chrono::DateTime::from_timestamp(secs, nanos).map(
        |t| t.format("%Y-%m-%d %H:%M:%S%.3f UTC").to_string(),
    )
}

/// Whole seconds since 1970 of a timestamp, rounded down.
pub open spec fn spec_unix_secs(ts: i64) -> int {
    ts as int / MICROS_PER_SECOND as int + PG_EPOCH_OFFSET_SECS
}

/// Nanoseconds of the second begun of a timestamp.
pub open spec fn spec_subsec_nanos(ts: i64) -> int {
    (ts as int % MICROS_PER_SECOND as int) * 1000
}

/// The text of a timestamp as date, time of day to the millisecond and
/// `UTC`, if the calendar reaches that far.
pub fn format_timestamp_from_pg(ts: TimestampTz) -> (r: Option<String>)
    ensures
        (match r {
            Some(s) => Some(s@),
            None => None,
        }) == spec_format_utc(spec_unix_secs(ts) as i64, spec_subsec_nanos(ts) as u32),
{
    let whole: i64 = ts / MICROS_PER_SECOND;
    let rest: i64 = ts % MICROS_PER_SECOND;
    let (secs, micros): (i64, i64) = if rest < 0 {
        (whole - 1, rest + MICROS_PER_SECOND)
    } else {
        (whole, rest)
    };
    assert(secs == ts as int / MICROS_PER_SECOND as int && micros == ts as int
        % MICROS_PER_SECOND as int) by {
        assert(ts == secs * 1_000_000 + micros);
        assert(0 <= micros < 1_000_000);
    }
    format_utc(secs + PG_EPOCH_OFFSET_SECS, (micros * 1000) as u32)
}

} // verus!
