use vstd::prelude::*;

verus! {

/// An instant in UTC: whole seconds since the Unix epoch and the
/// nanoseconds past that second.
#[derive(PartialEq, Eq, Structural, Clone, Copy, Debug)]
pub struct Timestamp {
    pub secs: i64,
    pub nanos: u32,
}

/// A calendar date: the year, the month (1 for January) and the day of the
/// month (starting at 1).
#[derive(PartialEq, Eq, Structural, Clone, Copy, Debug)]
pub struct CalendarDate {
    pub year: i32,
    pub month: u32,
    pub day: u32,
}

/// The current instant (`chrono::Utc::now`). The clock is read, so nothing
/// ties the result to the arguments; chrono builds it from the system time
/// with a sub-second part below one second.
#[verifier::external_body]
pub fn now() -> (res: Timestamp)
    ensures
        res.nanos < 1_000_000_000,
{
    let t = chrono::Utc::now();
    Timestamp { secs: t.timestamp(), nanos: t.timestamp_subsec_nanos() }
}

/// Today's date in UTC (`chrono::Utc::now().date_naive()`), as its year,
/// month and day of the month (`Datelike::year`, `month`, `day`, which
/// chrono documents as 1 to 12 and 1 to 31).
#[verifier::external_body]
pub fn today() -> (res: CalendarDate)
    ensures
        1 <= res.month <= 12,
        1 <= res.day <= 31,
{
    let d = chrono::Utc::now().date_naive();
    CalendarDate { year: chrono::Datelike::year(&d), month: chrono::Datelike::month(&d), day: chrono::Datelike::day(&d) }
}

/// The largest number of hours that `chrono::Duration::hours` accepts
/// (`i64::MAX` milliseconds, in whole hours).
pub open spec fn max_duration_hours() -> int {
    2562047788015
}

/// `t + Duration::hours(hours)` through `DateTime::checked_add_signed`:
/// `None` when the sum leaves the range of dates that chrono represents.
/// The claim is that a `Some` is the arithmetic sum of seconds, the
/// sub-second part kept, and that sums within 8 * 10^12 seconds of the
/// epoch (about 253,000 years, inside chrono's range of 262,142 years) are
/// represented.
#[verifier::external_body]
pub fn checked_add_hours(t: Timestamp, hours: i64) -> (res: Option<Timestamp>)
    requires
        -max_duration_hours() <= hours <= max_duration_hours(),
        t.nanos < 1_000_000_000,
    ensures
        res matches Some(r) ==> r.secs == t.secs + hours * 3600 && r.nanos == t.nanos,
        (-8_000_000_000_000 <= t.secs && t.secs <= 8_000_000_000_000
            && -8_000_000_000_000 <= t.secs + hours * 3600
            && t.secs + hours * 3600 <= 8_000_000_000_000) ==> res is Some,
{
    match chrono::DateTime::from_timestamp(t.secs, t.nanos) {
        Some(start) => match start.checked_add_signed(chrono::Duration::hours(hours)) {
            Some(end) => Some(Timestamp { secs: end.timestamp(), nanos: end.timestamp_subsec_nanos() }),
            None => None,
        },
        None => None,
    }
}

} // verus!
