//! The system's clock, and how a reading of it is written.

use crate::text::opt_text;
use vstd::prelude::*;

verus! {

/// `std::time::SystemTime`, a reading of the system's clock.
#[verifier::external_type_specification]
#[verifier::external_body]
pub struct ExSystemTime(std::time::SystemTime);

/// The reading of the system's clock now, from `std::time::SystemTime::now`.
/// Nothing is claimed of the reading.
#[verifier::external_body]
fn clock_now() -> std::time::SystemTime {
    std::time::SystemTime::now()
}

/// The time from the start of 1970 (UTC) to `reading`, from
/// `std::time::SystemTime::duration_since`; none if the reading lies before
/// 1970. Nothing is claimed of the time.
#[verifier::external_body]
fn since_epoch(reading: &std::time::SystemTime) -> Option<std::time::Duration> {
    reading.duration_since(std::time::UNIX_EPOCH).ok()
}

/// A time in nanoseconds, from `std::time::Duration::as_nanos`. Nothing is
/// claimed of the number.
#[verifier::external_body]
fn nanos_of(elapsed: &std::time::Duration) -> u128 {
    elapsed.as_nanos()
}

/// The text that chrono writes for the moment `secs` seconds and `nanos`
/// nanoseconds after the start of 1970, in UTC, as year, month, day, hour,
/// minute and second; none where chrono knows no such moment.
pub uninterp spec fn utc_text_of(secs: i64, nanos: u32) -> Option<Seq<char>>;

/// The moment `secs` seconds and `nanos` nanoseconds after the start of 1970
/// in UTC, made by `chrono::DateTime::from_timestamp` and written by
/// `chrono::DateTime::format` with `%Y-%m-%d %H:%M:%S`; none where
/// `from_timestamp` gives none. The contract claims only that the text
/// depends on the two numbers alone: it gives the text a name.
#[verifier::external_body]
fn utc_text(secs: i64, nanos: u32) -> (text: Option<String>)
    ensures
        opt_text(text) == utc_text_of(secs, nanos),
{
    match chrono::DateTime::from_timestamp(secs, nanos) {
        Some(moment) => Some(moment.format("%Y-%m-%d %H:%M:%S").to_string()),
        None => None,
    }
}

/// The text for a moment: what chrono writes for it, or the empty text
/// where chrono knows no such moment.
pub open spec fn time_text_of(secs: i64, nanos: u32) -> Seq<char> {
    match utc_text_of(secs, nanos) {
        Some(text) => text,
        None => Seq::empty(),
    }
}

/// The whole seconds of a count of nanoseconds, as far as a signed number
/// of 64 bits holds them.
pub open spec fn whole_seconds(nanos: u128) -> i64 {
    if nanos / 1_000_000_000 > i64::MAX {
        i64::MAX
    } else {
        (nanos / 1_000_000_000) as i64
    }
}

/// The text for the moment that lies `nanos` nanoseconds after the start of
/// 1970.
pub open spec fn reading_text(nanos: u128) -> Seq<char> {
    time_text_of(whole_seconds(nanos), (nanos % 1_000_000_000) as u32)
}

/// Whether `text` is the text for some reading of the clock.
pub open spec fn is_reading_text(text: Seq<char>) -> bool {
    exists|nanos: u128| text == reading_text(nanos)
}

/// The text for the moment `secs` seconds and `nanos` nanoseconds after the
/// start of 1970, in UTC, as `YYYY-MM-DD HH:MM:SS`.
pub fn time_text(secs: i64, nanos: u32) -> (text: String)
    ensures
        text@ == time_text_of(secs, nanos),
{
    match utc_text(secs, nanos) {
        Some(text) => text,
        None => String::new(),
    }
}

/// The nanoseconds from the start of 1970 (UTC) to now by the system's
/// clock; zero if the clock is set before 1970.
pub(crate) fn now_nanos() -> u128 {
    let reading = clock_now();
    match since_epoch(&reading) {
        Some(elapsed) => nanos_of(&elapsed),
        None => 0,
    }
}

/// The time now in UTC by the system's clock, as `YYYY-MM-DD HH:MM:SS`.
pub fn current_time() -> (text: String)
    ensures
        is_reading_text(text@),
{
    let nanos: u128 = now_nanos();
    let whole: u128 = nanos / 1_000_000_000;
    let secs: i64 = if whole > 9_223_372_036_854_775_807 {
        9_223_372_036_854_775_807
    } else {
        whole as i64
    };
    let text = time_text(secs, (nanos % 1_000_000_000) as u32);
    assert(text@ == reading_text(nanos));
    text
}

} // verus!
