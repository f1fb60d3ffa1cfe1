//! The creation time of an image, as text in UTC to the second:
//! `YYYY-MM-DDTHH:MM:SSZ`. Reading the clock can fail (a clock set before
//! 1970, or beyond what the calendar covers); the failure is returned, not
//! raised.
use vstd::prelude::*;

verus! {

#[verifier::external_type_specification]
#[verifier::external_body]
pub struct ExSystemTime(std::time::SystemTime);

/// What chrono makes of a reading of `secs` seconds and `nanos` nanoseconds
/// after the Unix epoch, formatted as `%Y-%m-%dT%H:%M:%SZ`; `None` where the
/// reading is out of its range.
pub uninterp spec fn utc_timestamp_text(secs: int, nanos: int) -> Option<Seq<char>>;

/// The last second of the year 9999, in seconds after the Unix epoch.
pub const LAST_FOUR_DIGIT_SECOND: u64 = 253_402_300_799;

/// An optional text as its characters.
pub open spec fn option_text(o: Option<String>) -> Option<Seq<char>> {
    match o {
        Some(s) => Some(s@),
        None => None,
    }
}

/// Relies on std's `SystemTime::now`: the system clock's current reading.
/// Nothing is stated of it.
#[verifier::external_body]
fn system_now() -> std::time::SystemTime {
    std::time::SystemTime::now()
}

/// Relies on std's `SystemTime::duration_since(UNIX_EPOCH)`: an error for a
/// time before the epoch, else a `Duration`, whose whole seconds and
/// fraction in nanoseconds are returned; the fraction is below one billion.
#[verifier::external_body]
fn since_unix_epoch(t: &std::time::SystemTime) -> (r: Option<(u64, u32)>)
    ensures
        r is Some ==> (r->0).1 < 1_000_000_000,
{
    t.duration_since(std::time::UNIX_EPOCH).ok().map(|d| (d.as_secs(), d.subsec_nanos()))
}

/// Relies on chrono's `DateTime::from_timestamp`, which returns `None` out
/// of its range and never panics, and on `format("%Y-%m-%dT%H:%M:%SZ")`,
/// which writes a year of at least four digits and two digits for each other
/// field: exactly four digits for the years 1970 to 9999.
#[verifier::external_body]
fn format_utc(secs: i64, nanos: u32) -> (r: Option<String>)
    ensures
        option_text(r) == utc_timestamp_text(secs as int, nanos as int),
        r is Some ==> r->0@.len() >= 20 && r->0@.last() == 'Z',
        0 <= secs <= LAST_FOUR_DIGIT_SECOND && nanos < 1_000_000_000 ==> r is Some
            && r->0@.len() == 20 && r->0@[10] == 'T',
{
    chrono::DateTime::from_timestamp(secs, nanos).map(
        |t| t.format("%Y-%m-%dT%H:%M:%SZ").to_string(),
    )
}

/// The creation-time text of a clock reading of `secs` seconds and `nanos`
/// nanoseconds after the Unix epoch; `None` where chrono cannot represent it.
pub fn timestamp_text(secs: u64, nanos: u32) -> (r: Option<String>)
    ensures
        option_text(r) == if secs <= i64::MAX as u64 {
            utc_timestamp_text(secs as int, nanos as int)
        } else {
            None
        },
        r matches Some(s) ==> s@.len() >= 20 && s@.last() == 'Z',
        secs <= LAST_FOUR_DIGIT_SECOND && nanos < 1_000_000_000 ==> (r matches Some(s)
            && s@.len() == 20 && s@[10] == 'T'),
{
    if secs > i64::MAX as u64 {
        None
    } else {
        format_utc(secs as i64, nanos)
    }
}

/// The current time as creation-time text; `None` when the clock reads
/// before 1970 or beyond chrono's range.
pub fn current_timestamp() -> (r: Option<String>)
    ensures
        r matches Some(s) ==> s@.len() >= 20 && s@.last() == 'Z',
{
    let now = system_now();
    match since_unix_epoch(&now) {
        None => None,
        Some((secs, nanos)) => timestamp_text(secs, nanos),
    }
}

} // verus!
