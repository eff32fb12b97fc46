//! Date and time of a Unix time stamp in a time zone, through `chrono`.
//!
//! The zone of the machine is not looked up here: a zone comes in as the
//! seconds that it is ahead of UTC.
use vstd::prelude::*;

verus! {

/// The first second that `chrono` can represent: the start of the year
/// -262143.
pub const CLOCK_MIN: i64 = -8_334_601_228_800;

/// The last second that `chrono` can represent: the end of the year 262142.
pub const CLOCK_MAX: i64 = 8_210_266_876_799;

/// Whether `chrono` has a date and time for the Unix time stamp `secs`.
pub open spec fn in_clock_range(secs: int) -> bool {
    CLOCK_MIN <= secs <= CLOCK_MAX
}

/// Whether a time zone can be `east` seconds ahead of UTC: less than a day
/// either way.
pub open spec fn is_offset(east: int) -> bool {
    -86_400 < east < 86_400
}

/// What `chrono` prints for the moment `secs` seconds after the Unix epoch
/// in a time zone that is `east` seconds ahead of UTC: the date, the time
/// of day and the offset of the zone.
pub uninterp spec fn date_time_text(secs: int, east: int) -> Seq<char>;

/// `chrono::TimeZone::timestamp_opt` for the `chrono::FixedOffset` that is
/// `east` seconds ahead of UTC, printed: the text of the moment `secs` in
/// that zone, which depends on the two numbers alone and is named
/// [`date_time_text`].
#[verifier::external_body]
fn date_time(secs: i64, east: i32) -> (text: String)
    requires
        in_clock_range(secs as int),
        is_offset(east as int),
    ensures
        text@ == date_time_text(secs as int, east as int),
{
    let zone = chrono::FixedOffset::east_opt(east).unwrap();
    chrono::TimeZone::timestamp_opt(&zone, secs, 0).unwrap().to_string()
}

/// Whether a time stamp of `secs` seconds can be shown.
pub fn has_date_time(secs: i64) -> (ok: bool)
    ensures
        ok == in_clock_range(secs as int),
{
    CLOCK_MIN <= secs && secs <= CLOCK_MAX
}

/// Whether a time zone can be `east` seconds ahead of UTC.
pub fn can_be_offset(east: i32) -> (ok: bool)
    ensures
        ok == is_offset(east as int),
{
    -86_400 < east && east < 86_400
}

/// The date and time of the Unix time stamp `secs` in the time zone that
/// is `east` seconds ahead of UTC: there is one exactly where `chrono` can
/// represent the moment and the zone.
pub fn date_time_in(secs: i64, east: i32) -> (text: Option<String>)
    ensures
        text is Some <==> in_clock_range(secs as int) && is_offset(east as int),
        text matches Some(shown) ==> shown@ == date_time_text(secs as int, east as int),
{
    if has_date_time(secs) && can_be_offset(east) {
        Some(date_time(secs, east))
    } else {
        None
    }
}

} // verus!
