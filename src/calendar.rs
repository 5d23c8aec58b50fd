use astrolabe::DateUtilities;
use vstd::prelude::*;

verus! {

/// The last year for which every day is representable by the calendar
/// library that computes the following day.
pub const MAX_YEAR: i32 = 5_879_610;

/// A day of the proleptic Gregorian calendar, from year 1 on.
#[derive(Clone, Copy, Debug, PartialEq, Eq, Structural)]
pub struct CivilDate {
    pub year: i32,
    pub month: u32,
    pub day: u32,
}

pub open spec fn is_leap_year(y: int) -> bool {
    y % 4 == 0 && (y % 100 != 0 || y % 400 == 0)
}

pub open spec fn days_in_month(y: int, m: int) -> int {
    if m == 2 {
        if is_leap_year(y) {
            29
        } else {
            28
        }
    } else if m == 4 || m == 6 || m == 9 || m == 11 {
        30
    } else {
        31
    }
}

pub open spec fn valid_ymd(y: int, m: int, d: int) -> bool {
    1 <= y <= MAX_YEAR && 1 <= m <= 12 && 1 <= d <= days_in_month(y, m)
}

/// The calendar day that follows `(y, m, d)`.
pub open spec fn next_day_spec(y: int, m: int, d: int) -> (int, int, int) {
    if d < days_in_month(y, m) {
        (y, m, d + 1)
    } else if m < 12 {
        (y, m + 1, 1)
    } else {
        (y + 1, 1, 1)
    }
}

/// Relies on astrolabe's `Date::from_ymd`, `DateUtilities::add_days` and
/// `Date::as_ymd`: for a valid date, building it, adding one day and reading
/// it back gives the following calendar day.
#[verifier::external_body]
fn astrolabe_next_day(year: i32, month: u32, day: u32) -> (r: (i32, u32, u32))
    requires
        valid_ymd(year as int, month as int, day as int),
    ensures
        (r.0 as int, r.1 as int, r.2 as int) == next_day_spec(
            year as int,
            month as int,
            day as int,
        ),
{
    match astrolabe::Date::from_ymd(year, month, day) {
        Ok(date) => date.add_days(1).as_ymd(),
        Err(_) => (year, month, day),
    }
}

impl CivilDate {
    pub open spec fn wf(&self) -> bool {
        valid_ymd(self.year as int, self.month as int, self.day as int)
    }

    /// The date `(year, month, day)` when it names a real calendar day from
    /// year 1 to `MAX_YEAR`, `None` otherwise.
    pub fn new(year: i32, month: u32, day: u32) -> (r: Option<CivilDate>)
        ensures
            r is Some <==> valid_ymd(year as int, month as int, day as int),
            r matches Some(c) ==> c.year == year && c.month == month && c.day == day,
    {
        if year < 1 || year > MAX_YEAR || month < 1 || month > 12 || day < 1 {
            return None;
        }
        let leap = year % 4 == 0 && (year % 100 != 0 || year % 400 == 0);
        let last: u32 = if month == 2 {
            if leap {
                29
            } else {
                28
            }
        } else if month == 4 || month == 6 || month == 9 || month == 11 {
            30
        } else {
            31
        };
        if day > last {
            None
        } else {
            Some(CivilDate { year, month, day })
        }
    }

    /// The calendar day after this one.
    pub fn next_day(&self) -> (r: CivilDate)
        requires
            self.wf(),
            self.year < MAX_YEAR || self.month < 12 || self.day < 31,
        ensures
            r.wf(),
            (r.year as int, r.month as int, r.day as int) == next_day_spec(
                self.year as int,
                self.month as int,
                self.day as int,
            ),
    {
        let (year, month, day) = astrolabe_next_day(self.year, self.month, self.day);
        CivilDate { year, month, day }
    }
}

} // verus!
