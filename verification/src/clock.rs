//! The system clock and the local calendar, read through `std::time` and
//! `chrono`. Their results depend on the moment and the machine's time zone,
//! so the contracts state only what holds of every reading.

use chrono::Datelike;
use chrono::TimeZone;
use vstd::prelude::*;

verus! {

/// The largest millisecond count that a `std::time::Duration` can hold.
pub open spec fn max_duration_millis() -> nat {
    u64::MAX as nat * 1000 + 999
}

/// The time since the Unix epoch as whole seconds and the nanoseconds of
/// the last second (`SystemTime::now().duration_since(UNIX_EPOCH)`, then
/// `as_secs()` and `subsec_nanos()`), or `None` when the system clock reads a
/// time before the epoch, where `duration_since` gives an error. The contract
/// claims the range that `Duration` documents for `subsec_nanos`; which
/// reading comes back depends on the moment.
#[verifier::external_body]
pub(crate) fn system_since_epoch() -> (r: Option<(u64, u32)>)
    ensures
        r matches Some(t) ==> t.1 < 1_000_000_000,
{
    match std::time::SystemTime::now().duration_since(std::time::UNIX_EPOCH) {
        Ok(d) => Some((d.as_secs(), d.subsec_nanos())),
        Err(_) => None,
    }
}

/// Whether `secs` seconds from the Unix epoch lie within 8·10¹² seconds of
/// it (about 253,000 years either way), well inside the dates that `chrono`
/// represents (years −262,144 to 262,143), even a day later or earlier.
pub open spec fn chrono_secs_in_range(secs: int) -> bool {
    -8_000_000_000_000 <= secs <= 8_000_000_000_000
}

/// Year, month and day of the local date `days` days after the instant
/// `secs` seconds and `nsecs` nanoseconds after the Unix epoch
/// (`DateTime::from_timestamp(secs, nsecs)`, `with_timezone(&Local)`,
/// `checked_add_signed(TimeDelta::days(days))`, then `year()`, `month()`,
/// `day()`). The contract claims the ranges that `chrono::Datelike` documents
/// for month and day, and what `chrono` documents of `from_timestamp` and
/// `checked_add_signed`: a date for an in-range second and a valid nanosecond
/// field. Which date comes back depends on the machine's time zone.
/// `TimeDelta::days` panics far outside `-1..=1`, which `requires` rules out.
#[verifier::external_body]
pub(crate) fn local_date_at(secs: i64, nsecs: u32, days: i64) -> (r: Option<(i32, u32, u32)>)
    requires
        -1 <= days <= 1,
    ensures
        r matches Some(t) ==> 1 <= t.1 <= 12 && 1 <= t.2 <= 31,
        nsecs < 1_000_000_000 && chrono_secs_in_range(secs as int) ==> r is Some,
{
    let utc = chrono::DateTime::from_timestamp(secs, nsecs)?;
    let t = utc.with_timezone(&chrono::Local).checked_add_signed(chrono::TimeDelta::days(days))?;
    Some((t.year(), t.month(), t.day()))
}

/// Whether `chrono` reads `fmt` as a format string without error items.
pub uninterp spec fn strftime_ok(fmt: Seq<char>) -> bool;

/// `chrono::format::StrftimeItems::new(fmt).parse().is_ok()`: whether the
/// format string holds no invalid or unrecognized specifier, which is when
/// formatting a date and time with `fmt` cannot fail.
#[verifier::external_body]
pub(crate) fn strftime_check(fmt: &str) -> (r: bool)
    ensures
        r == strftime_ok(fmt@),
{
    chrono::format::StrftimeItems::new(fmt).parse().is_ok()
}

/// `Local.timestamp_opt(secs, nsecs).single()` formatted with `fmt`. The
/// contract claims what `chrono` documents of `timestamp_opt`: no date and
/// time for a nanosecond count of two seconds or more, and a single one for
/// an in-range second and a valid nanosecond field, whatever the time zone;
/// which text comes back depends on the machine's time zone. `to_string`
/// panics on a format string with error items, which `requires` rules out.
#[verifier::external_body]
pub(crate) fn local_timestamp_format(secs: i64, nsecs: u32, fmt: &str) -> (r: Option<String>)
    requires
        strftime_ok(fmt@),
    ensures
        nsecs >= 2_000_000_000 ==> r is None,
        nsecs < 1_000_000_000 && chrono_secs_in_range(secs as int) ==> r is Some,
{
    match chrono::Local.timestamp_opt(secs, nsecs).single() {
        Some(t) => Some(t.format(fmt).to_string()),
        None => None,
    }
}

} // verus!
