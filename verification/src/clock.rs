//! Points in time, as nanoseconds since the start of 1970 in UTC.
use vstd::prelude::*;

use crate::text::opt_text;

verus! {

/// What `DateTime::to_rfc3339_opts` prints of a point in time, given by its whole seconds
/// and the nanoseconds on top of them: its RFC 3339 form, in UTC, with as many digits of
/// the second as it needs. There is none where the point lies outside the range of the
/// calendar.
pub uninterp spec fn rfc3339(seconds: int, nanos: int) -> Option<Seq<char>>;

/// `DateTime::from_timestamp`, then `DateTime::to_rfc3339_opts`. The result is a function
/// of the point in time.
#[verifier::external_body]
fn rfc3339_text(seconds: i64, nanos: u32) -> (r: Option<String>)
    ensures
        opt_text(r) == rfc3339(seconds as int, nanos as int),
{
    let at = chrono::DateTime::from_timestamp(seconds, nanos)?;
    Some(at.to_rfc3339_opts(chrono::SecondsFormat::AutoSi, true))
}

/// The last nanosecond of the calendar's last year, 262142.
pub const LATEST_NANOS: i128 = 8_210_266_876_799_999_999_999;

/// The RFC 3339 form of a point in time, where it lies within the range of the calendar.
pub open spec fn time_text(at: i128) -> Option<Seq<char>> {
    let seconds = at as int / 1_000_000_000;
    if i64::MIN <= seconds <= i64::MAX {
        rfc3339(seconds, at as int % 1_000_000_000)
    } else {
        None
    }
}

/// The RFC 3339 form of a point in time, where it lies within the range of the calendar.
pub fn format_time(at: i128) -> (r: Option<String>)
    ensures
        opt_text(r) == time_text(at),
{
    let (seconds, nanos): (i128, u32) = if at >= 0 {
        (at / 1_000_000_000, (at % 1_000_000_000) as u32)
    } else {
        let away: i128 = -(at + 1);
        (-(away / 1_000_000_000) - 1, (999_999_999 - away % 1_000_000_000) as u32)
    };
    if seconds < i64::MIN as i128 || seconds > i64::MAX as i128 {
        return None;
    }
    rfc3339_text(seconds as i64, nanos)
}

/// The whole microseconds of a point in time, rounded down.
pub fn whole_micros(at: i128) -> (r: i128)
    ensures
        r == at as int / 1_000,
{
    if at >= 0 {
        at / 1_000
    } else {
        -(-(at + 1) / 1_000) - 1
    }
}

/// The whole milliseconds of a point in time, rounded down. Those of every point within
/// the range of the calendar have 64 bits; beyond it they stop at the last that have.
pub open spec fn millis_of(at: i128) -> int {
    let ms = at as int / 1_000_000;
    if ms < i64::MIN {
        i64::MIN as int
    } else if ms > i64::MAX {
        i64::MAX as int
    } else {
        ms
    }
}

/// The whole milliseconds of a point in time, rounded down.
pub fn whole_millis(at: i128) -> (r: i64)
    ensures
        r == millis_of(at),
{
    let ms: i128 = if at >= 0 {
        at / 1_000_000
    } else {
        -(-(at + 1) / 1_000_000) - 1
    };
    if ms < i64::MIN as i128 {
        i64::MIN
    } else if ms > i64::MAX as i128 {
        i64::MAX
    } else {
        ms as i64
    }
}

/// The whole milliseconds of a span of nanoseconds. Those of every span within the range of
/// the calendar have 64 bits; beyond it they stop at the last that have.
pub open spec fn span_millis(span: int) -> int {
    if span / 1_000_000 > i64::MAX {
        i64::MAX as int
    } else {
        span / 1_000_000
    }
}

/// The whole milliseconds from `from` to `to`, rounded towards zero.
pub open spec fn millis_between(from: int, to: int) -> int {
    if to >= from {
        span_millis(to - from)
    } else {
        -span_millis(from - to)
    }
}

/// The whole milliseconds from an earlier to a later point in time.
fn millis_since(earlier: i128, later: i128) -> (r: i64)
    requires
        earlier <= later,
    ensures
        r == span_millis(later - earlier),
{
    let span: u128 = if earlier >= 0 || later < 0 {
        (later - earlier) as u128
    } else {
        later as u128 + (-(earlier + 1)) as u128 + 1
    };
    let ms: u128 = span / 1_000_000;
    if ms > i64::MAX as u128 {
        i64::MAX
    } else {
        ms as i64
    }
}

/// The whole milliseconds from `from` to `to`, rounded towards zero.
pub fn elapsed_millis(from: i128, to: i128) -> (r: i64)
    ensures
        r == millis_between(from as int, to as int),
{
    if to >= from {
        millis_since(from, to)
    } else {
        -millis_since(to, from)
    }
}

} // verus!
