//! The time-of-day readout. The host reads the local date and time; chrono
//! turns it into text.

use vstd::prelude::*;

verus! {

/// A local calendar date and time of day, as plain numbers.
#[derive(Clone, Copy, Debug, PartialEq, Eq, Structural)]
pub struct LocalDateTime {
    pub year: i32,
    pub month: u32,
    pub day: u32,
    pub hour: u32,
    pub minute: u32,
    pub second: u32,
}

pub open spec fn is_leap_year(year: int) -> bool {
    year % 4 == 0 && (year % 100 != 0 || year % 400 == 0)
}

pub open spec fn days_in_month(year: int, month: int) -> int {
    if month == 2 {
        if is_leap_year(year) {
            29
        } else {
            28
        }
    } else if month == 4 || month == 6 || month == 9 || month == 11 {
        30
    } else {
        31
    }
}

/// The earliest and latest years that chrono's dates reach.
pub const MIN_YEAR: i32 = -262143;

pub const MAX_YEAR: i32 = 262142;

impl LocalDateTime {
    /// A real date of the proleptic Gregorian calendar within chrono's range,
    /// and a time of day without leap second.
    pub open spec fn wf(self) -> bool {
        &&& MIN_YEAR <= self.year <= MAX_YEAR
        &&& 1 <= self.month <= 12
        &&& 1 <= self.day <= days_in_month(self.year as int, self.month as int)
        &&& self.hour < 24
        &&& self.minute < 60
        &&& self.second < 60
    }
}

/// The patterns the readout uses: ISO date, 24-hour time, weekday name.
pub open spec fn is_readout_pattern(pattern: Seq<char>) -> bool {
    pattern == "%Y-%m-%d"@ || pattern == "%H:%M:%S"@ || pattern == "%A"@
}

/// The text chrono writes for a date and time under a strftime pattern.
pub uninterp spec fn strftime_text(
    year: int,
    month: nat,
    day: nat,
    hour: nat,
    minute: nat,
    second: nat,
    pattern: Seq<char>,
) -> Seq<char>;

/// `strftime_text` of a `LocalDateTime`.
pub open spec fn formatted(t: LocalDateTime, pattern: Seq<char>) -> Seq<char> {
    strftime_text(
        t.year as int,
        t.month as nat,
        t.day as nat,
        t.hour as nat,
        t.minute as nat,
        t.second as nat,
        pattern,
    )
}

/// Relies on chrono's `NaiveDate::from_ymd_opt` and `NaiveDate::and_hms_opt`,
/// which give a value exactly for the valid dates and times that `wf` names,
/// and on `NaiveDateTime::format`, whose text depends on the date, the time
/// and the pattern alone (the patterns allowed here hold no invalid item, on
/// which `to_string` would panic).
#[verifier::external_body]
fn chrono_format(t: &LocalDateTime, pattern: &str) -> (r: Option<String>)
    requires
        is_readout_pattern(pattern@),
    ensures
        r.is_some() == t.wf(),
        r matches Some(s) ==> s@ == strftime_text(
            t.year as int,
            t.month as nat,
            t.day as nat,
            t.hour as nat,
            t.minute as nat,
            t.second as nat,
            pattern@,
        ),
{
    match chrono::NaiveDate::from_ymd_opt(t.year, t.month, t.day) {
        Some(d) => match d.and_hms_opt(t.hour, t.minute, t.second) {
            Some(dt) => Some(dt.format(pattern).to_string()),
            None => None,
        },
        None => None,
    }
}

/// The four lines the clock shows for one instant.
pub struct ClockFace {
    pub date_line: String,
    pub time_line: String,
    pub day_line: String,
    pub big_time: String,
}

/// The clock view. It keeps no state: every frame shows the instant the
/// host read.
pub struct Clock {}

impl Clock {
    pub fn new() -> (r: Clock) {
        Clock {}
    }

    /// The lines for `now`: `Date: YYYY-MM-DD`, `Time: HH:MM:SS`,
    /// `Day: <weekday>`, and the time once more for the large display.
    /// `None` when `now` is no valid date and time.
    pub fn face(&self, now: &LocalDateTime) -> (r: Option<ClockFace>)
        ensures
            r.is_some() == now.wf(),
            r matches Some(f) ==> {
                &&& f.date_line@ == "Date: "@ + formatted(*now, "%Y-%m-%d"@)
                &&& f.time_line@ == "Time: "@ + formatted(*now, "%H:%M:%S"@)
                &&& f.day_line@ == "Day: "@ + formatted(*now, "%A"@)
                &&& f.big_time@ == formatted(*now, "%H:%M:%S"@)
            },
    {
        let date = match chrono_format(now, "%Y-%m-%d") {
            Some(s) => s,
            None => return None,
        };
        let time = match chrono_format(now, "%H:%M:%S") {
            Some(s) => s,
            None => return None,
        };
        let day = match chrono_format(now, "%A") {
            Some(s) => s,
            None => return None,
        };
        let mut date_line = String::from_str("Date: ");
        date_line.append(date.as_str());
        let mut time_line = String::from_str("Time: ");
        time_line.append(time.as_str());
        let mut day_line = String::from_str("Day: ");
        day_line.append(day.as_str());
        Some(ClockFace { date_line, time_line, day_line, big_time: time })
    }
}

impl Default for Clock {
    fn default() -> (r: Clock) {
        Clock::new()
    }
}

} // verus!
