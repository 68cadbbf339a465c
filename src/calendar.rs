//! Calendar dates and timestamps held as plain numbers, with the calendar
//! arithmetic that chrono performs on them.
use chrono::Datelike;
use vstd::prelude::*;

verus! {

/// Earliest year that the calendar backend can represent.
pub const MIN_YEAR: i32 = -262143;

/// Latest year that the calendar backend can represent.
pub const MAX_YEAR: i32 = 262142;

/// A day of the proleptic Gregorian calendar.
#[derive(Clone, Copy, Debug, PartialEq, Eq, Structural)]
pub struct Date {
    pub year: i32,
    pub month: u32,
    pub day: u32,
}

/// A date together with a time of day, with no time zone.
#[derive(Clone, Copy, Debug, PartialEq, Eq, Structural)]
pub struct Timestamp {
    pub date: Date,
    pub hour: u32,
    pub minute: u32,
    pub second: u32,
}

/// Gregorian leap years.
pub open spec fn is_leap_year(y: int) -> bool {
    (y % 4 == 0 && y % 100 != 0) || y % 400 == 0
}

/// Number of days of month `m` in year `y`.
pub open spec fn days_in_month(y: int, m: int) -> int {
    if m == 2 {
        if is_leap_year(y) { 29 } else { 28 }
    } else if m == 4 || m == 6 || m == 9 || m == 11 {
        30
    } else {
        31
    }
}

impl Date {
    /// The month and the day name an existing day of the year.
    pub open spec fn is_calendar_day(self) -> bool {
        1 <= self.month <= 12 && 1 <= self.day <= days_in_month(self.year as int, self.month as int)
    }

    /// An existing day in the range of years that can be represented.
    pub open spec fn valid(self) -> bool {
        MIN_YEAR <= self.year <= MAX_YEAR && self.is_calendar_day()
    }

    /// The day after this one.
    pub open spec fn next(self) -> Date {
        if self.day < days_in_month(self.year as int, self.month as int) {
            Date { day: (self.day + 1) as u32, ..self }
        } else if self.month < 12 {
            Date { month: (self.month + 1) as u32, day: 1, ..self }
        } else {
            Date { year: (self.year + 1) as i32, month: 1, day: 1 }
        }
    }

    /// The day before this one.
    pub open spec fn prev(self) -> Date {
        if self.day > 1 {
            Date { day: (self.day - 1) as u32, ..self }
        } else if self.month > 1 {
            Date {
                month: (self.month - 1) as u32,
                day: days_in_month(self.year as int, self.month - 1) as u32,
                ..self
            }
        } else {
            Date { year: (self.year - 1) as i32, month: 12, day: 31 }
        }
    }

    /// The day `n` days after this one (before it, for a negative `n`).
    pub open spec fn plus_days(self, n: int) -> Date
        decreases (if n < 0 { -n } else { n }),
    {
        if n == 0 {
            self
        } else if n > 0 {
            self.next().plus_days(n - 1)
        } else {
            self.prev().plus_days(n + 1)
        }
    }

    /// Number of days from 1970-01-01 to this day.
    pub open spec fn day_number(self) -> int {
        let y: int = if self.month <= 2 { self.year - 1 } else { self.year as int };
        let mp: int = if self.month > 2 { self.month - 3 } else { self.month + 9 };
        365 * y + y / 4 - y / 100 + y / 400 + (153 * mp + 2) / 5 + self.day - 1 - 719468
    }

    /// Day of the week, counted from Sunday as 0; 1970-01-01 was a Thursday.
    pub open spec fn weekday_from_sunday(self) -> int {
        (self.day_number() + 4) % 7
    }

    /// Midnight at the start of this day.
    pub open spec fn midnight(self) -> Timestamp {
        Timestamp { date: self, hour: 0, minute: 0, second: 0 }
    }
}

impl Timestamp {
    /// A valid date and a time of day within it.
    pub open spec fn valid(self) -> bool {
        self.date.valid() && self.hour < 24 && self.minute < 60 && self.second < 60
    }
}

/// Midnight at the start of the given day.
pub fn midnight(d: Date) -> (r: Timestamp)
    ensures
        r == d.midnight(),
{
    Timestamp { date: d, hour: 0, minute: 0, second: 0 }
}

/// Relies on chrono's `NaiveDate::from_ymd_opt`: it gives a date exactly when
/// year, month and day name an existing day in its range of years.
#[verifier::external_body]
pub(crate) fn date_from_ymd(year: i32, month: u32, day: u32) -> (r: Option<Date>)
    ensures
        (Date { year, month, day }).valid() ==> r == Some(Date { year, month, day }),
        !(Date { year, month, day }).valid() ==> r is None,
{
    match chrono::NaiveDate::from_ymd_opt(year, month, day) {
        Some(x) => Some(Date { year: x.year(), month: x.month(), day: x.day() }),
        None => None,
    }
}

/// Relies on chrono's `NaiveDate::checked_add_signed` with a whole number of
/// days: it moves by calendar days and gives nothing past its range of years.
#[verifier::external_body]
pub(crate) fn shift_days(d: Date, n: i64) -> (r: Option<Date>)
    requires
        d.valid(),
        -400 <= n <= 400,
    ensures
        d.plus_days(n as int).valid() ==> r == Some(d.plus_days(n as int)),
        !d.plus_days(n as int).valid() ==> r is None,
{
    match chrono::NaiveDate::from_ymd_opt(d.year, d.month, d.day) {
        Some(x) => match x.checked_add_signed(chrono::TimeDelta::days(n)) {
            Some(y) => Some(Date { year: y.year(), month: y.month(), day: y.day() }),
            None => None,
        },
        None => None,
    }
}

/// Relies on chrono's `Weekday::num_days_from_sunday` of the date's weekday.
#[verifier::external_body]
pub(crate) fn weekday_from_sunday(d: Date) -> (r: u32)
    requires
        d.valid(),
    ensures
        r as int == d.weekday_from_sunday(),
{
    match chrono::NaiveDate::from_ymd_opt(d.year, d.month, d.day) {
        Some(x) => x.weekday().num_days_from_sunday(),
        None => 0,
    }
}

/// Relies on chrono's `Local::now` and `DateTime::date_naive`: today's date in
/// the local time zone, which is some valid date.
#[verifier::external_body]
pub(crate) fn local_today() -> (r: Date)
    ensures
        r.valid(),
{
    let x = chrono::Local::now().date_naive();
    Date { year: x.year(), month: x.month(), day: x.day() }
}

} // verus!
