//! Strict Gregorian calendar arithmetic on plain `(year, month, day)` values.
//!
//! Dates are modelled directly by their fields; validity is calendar
//! validity (leap years included), not a range check on the day alone.
//! The supported year range is 1 through 9999, the years whose canonical
//! rendering has exactly four digits.

use vstd::prelude::*;

verus! {

/// Least supported year.
pub const MIN_YEAR: i32 = 1;

/// Greatest supported year: the largest that renders as four digits.
pub const MAX_YEAR: i32 = 9999;

/// A year is a leap year when divisible by 4, except century years,
/// which must be divisible by 400.
pub open spec fn is_leap_spec(year: int) -> bool {
    year % 4 == 0 && (year % 100 != 0 || year % 400 == 0)
}

/// Number of days of a month, for months 1 through 12.
pub open spec fn days_in_month_spec(year: int, month: int) -> int {
    if month == 2 {
        if is_leap_spec(year) {
            29
        } else {
            28
        }
    } else if month == 4 || month == 6 || month == 9 || month == 11 {
        30
    } else {
        31
    }
}

/// A real Gregorian calendar date within the supported year range.
pub open spec fn valid_date_spec(year: int, month: int, day: int) -> bool {
    &&& MIN_YEAR <= year <= MAX_YEAR
    &&& 1 <= month <= 12
    &&& 1 <= day <= days_in_month_spec(year, month)
}

/// Whether `year` is a Gregorian leap year.
pub fn is_leap_year(year: i32) -> (leap: bool)
    ensures
        leap == is_leap_spec(year as int),
{
    year % 4 == 0 && (year % 100 != 0 || year % 400 == 0)
}

/// Number of days of `month` in `year`.
pub fn days_in_month(year: i32, month: i32) -> (days: i32)
    requires
        1 <= month <= 12,
    ensures
        days == days_in_month_spec(year as int, month as int),
{
    if month == 2 {
        if is_leap_year(year) {
            29
        } else {
            28
        }
    } else if month == 4 || month == 6 || month == 9 || month == 11 {
        30
    } else {
        31
    }
}

/// Whether `(year, month, day)` names a real calendar date, by calendar
/// arithmetic on the month lengths.
pub fn date_exists(year: i32, month: i32, day: i32) -> (ok: bool)
    ensures
        ok == valid_date_spec(year as int, month as int, day as int),
{
    if year < MIN_YEAR || year > MAX_YEAR {
        return false;
    }
    if month < 1 || month > 12 {
        return false;
    }
    1 <= day && day <= days_in_month(year, month)
}

/// One concrete calendar date. Only well-formed values (see
/// [`CalendarDate::wf`]) are produced by this library.
#[derive(Clone, Copy, PartialEq, Eq, Structural, Debug)]
pub struct CalendarDate {
    pub year: i32,
    pub month: i32,
    pub day: i32,
}

/// Days of all years before `year`, within the supported range.
pub open spec fn days_before_year(year: int) -> int
    decreases year,
{
    if year <= 1 {
        0
    } else {
        days_before_year(year - 1) + days_in_year_spec(year - 1)
    }
}

/// Number of days of `year`.
pub open spec fn days_in_year_spec(year: int) -> int {
    if is_leap_spec(year) {
        366
    } else {
        365
    }
}

/// Days of the months of `year` strictly before `month`.
pub open spec fn days_before_month(year: int, month: int) -> int
    decreases month,
{
    if month <= 1 {
        0
    } else {
        days_before_month(year, month - 1) + days_in_month_spec(year, month - 1)
    }
}

impl CalendarDate {
    /// The date is a real calendar date in the supported year range.
    pub open spec fn wf(self) -> bool {
        valid_date_spec(self.year as int, self.month as int, self.day as int)
    }

    /// Position of the date in the calendar: the number of days between
    /// the first supported date and this one. The first supported date
    /// has day number 0.
    pub open spec fn day_number_spec(self) -> int {
        days_before_year(self.year as int) + days_before_month(
            self.year as int,
            self.month as int,
        ) + self.day - 1
    }

    /// The calendar date right after this one.
    pub open spec fn next_spec(self) -> CalendarDate {
        if self.day < days_in_month_spec(self.year as int, self.month as int) {
            CalendarDate { year: self.year, month: self.month, day: (self.day + 1) as i32 }
        } else if self.month < 12 {
            CalendarDate { year: self.year, month: (self.month + 1) as i32, day: 1 }
        } else {
            CalendarDate { year: (self.year + 1) as i32, month: 1, day: 1 }
        }
    }

    /// The date one day later, or `None` at the end of the supported range.
    pub fn next_day(self) -> (next: Option<CalendarDate>)
        requires
            self.wf(),
        ensures
            match next {
                Some(n) => n.wf() && n == self.next_spec(),
                None => self == (CalendarDate { year: MAX_YEAR, month: 12, day: 31 }),
            },
    {
        let dim = days_in_month(self.year, self.month);
        if self.day < dim {
            Some(CalendarDate { year: self.year, month: self.month, day: self.day + 1 })
        } else if self.month < 12 {
            Some(CalendarDate { year: self.year, month: self.month + 1, day: 1 })
        } else if self.year < MAX_YEAR {
            Some(CalendarDate { year: self.year + 1, month: 1, day: 1 })
        } else {
            None
        }
    }

    /// Number of days between the first supported date and this one.
    pub fn day_number(self) -> (n: u32)
        requires
            self.wf(),
        ensures
            n == self.day_number_spec(),
    {
        let mut n: u32 = 0;
        let mut y: i32 = MIN_YEAR;
        while y < self.year
            invariant
                MIN_YEAR <= y <= self.year,
                self.wf(),
                n == days_before_year(y as int),
            decreases self.year - y,
        {
            proof {
                lemma_days_before_year_bounds(y as int + 1);
            }
            let add: u32 = if is_leap_year(y) {
                366
            } else {
                365
            };
            n = n + add;
            y = y + 1;
        }
        let mut m: i32 = 1;
        while m < self.month
            invariant
                1 <= m <= self.month,
                self.wf(),
                n == days_before_year(self.year as int) + days_before_month(
                    self.year as int,
                    m as int,
                ),
            decreases self.month - m,
        {
            proof {
                lemma_days_before_year_bounds(self.year as int);
                lemma_days_before_month_bounds(self.year as int, m as int + 1);
            }
            n = n + (days_in_month(self.year, m) as u32);
            m = m + 1;
        }
        proof {
            lemma_days_before_year_bounds(self.year as int);
            lemma_days_before_month_bounds(self.year as int, self.month as int);
        }
        n + (self.day as u32) - 1
    }

    /// Day of the week as an index: 0 is Monday, through 6 for Sunday.
    /// The first supported date, January 1st of year 1, is a Monday in
    /// the proleptic Gregorian calendar, which anchors the index.
    pub open spec fn weekday_spec(self) -> int {
        self.day_number_spec() % 7
    }

    /// Day of the week: 0 is Monday, through 6 for Sunday.
    pub fn weekday(self) -> (w: u32)
        requires
            self.wf(),
        ensures
            w == self.weekday_spec(),
            w < 7,
    {
        self.day_number() % 7
    }

    /// The date one day earlier, or `None` at the start of the supported
    /// range. The result is pinned by being the date whose successor is
    /// `self`.
    pub fn prev_day(self) -> (prev: Option<CalendarDate>)
        requires
            self.wf(),
        ensures
            match prev {
                Some(p) => p.wf() && p.next_spec() == self,
                None => self == (CalendarDate { year: MIN_YEAR, month: 1, day: 1 }),
            },
    {
        if self.day > 1 {
            Some(CalendarDate { year: self.year, month: self.month, day: self.day - 1 })
        } else if self.month > 1 {
            let dim = days_in_month(self.year, self.month - 1);
            Some(CalendarDate { year: self.year, month: self.month - 1, day: dim })
        } else if self.year > MIN_YEAR {
            Some(CalendarDate { year: self.year - 1, month: 12, day: 31 })
        } else {
            None
        }
    }
}

/// Bounds that keep the running day count inside `u32`.
pub proof fn lemma_days_before_year_bounds(year: int)
    requires
        year >= 1,
    ensures
        365 * (year - 1) <= days_before_year(year) <= 366 * (year - 1),
    decreases year,
{
    if year > 1 {
        lemma_days_before_year_bounds(year - 1);
    }
}

/// Bounds on the day count of the months before `month`.
pub proof fn lemma_days_before_month_bounds(year: int, month: int)
    requires
        month >= 1,
    ensures
        28 * (month - 1) <= days_before_month(year, month) <= 31 * (month - 1),
    decreases month,
{
    if month > 1 {
        lemma_days_before_month_bounds(year, month - 1);
    }
}

/// All twelve months of a year sum to that year's day count.
pub proof fn lemma_days_before_month_full(year: int)
    ensures
        days_before_month(year, 13) == days_in_year_spec(year),
{
    assert(days_before_month(year, 1) == 0);
    assert(days_before_month(year, 2) == 31);
    assert(days_before_month(year, 3) == 31 + days_in_month_spec(year, 2));
    assert(days_before_month(year, 4) == 62 + days_in_month_spec(year, 2));
    assert(days_before_month(year, 5) == 92 + days_in_month_spec(year, 2));
    assert(days_before_month(year, 6) == 123 + days_in_month_spec(year, 2));
    assert(days_before_month(year, 7) == 153 + days_in_month_spec(year, 2));
    assert(days_before_month(year, 8) == 184 + days_in_month_spec(year, 2));
    assert(days_before_month(year, 9) == 215 + days_in_month_spec(year, 2));
    assert(days_before_month(year, 10) == 245 + days_in_month_spec(year, 2));
    assert(days_before_month(year, 11) == 276 + days_in_month_spec(year, 2));
    assert(days_before_month(year, 12) == 306 + days_in_month_spec(year, 2));
    assert(days_before_month(year, 13) == 337 + days_in_month_spec(year, 2));
}

/// The year day count grows with the year.
pub proof fn lemma_days_before_year_monotone(a: int, b: int)
    requires
        a <= b,
    ensures
        days_before_year(a) <= days_before_year(b),
    decreases b - a,
{
    if a < b {
        lemma_days_before_year_monotone(a, b - 1);
    }
}

/// The month day count grows with the month.
pub proof fn lemma_days_before_month_monotone(year: int, a: int, b: int)
    requires
        a <= b,
    ensures
        days_before_month(year, a) <= days_before_month(year, b),
    decreases b - a,
{
    if a < b {
        lemma_days_before_month_monotone(year, a, b - 1);
    }
}

/// No well-formed date lies past the last supported date.
pub proof fn lemma_day_number_max(d: CalendarDate)
    requires
        d.wf(),
    ensures
        d.day_number_spec() <= (CalendarDate {
            year: MAX_YEAR,
            month: 12,
            day: 31,
        }).day_number_spec(),
{
    let y = d.year as int;
    let m = d.month as int;
    assert(days_before_month(y, m + 1) == days_before_month(y, m) + days_in_month_spec(y, m));
    lemma_days_before_month_monotone(y, m + 1, 13);
    lemma_days_before_month_full(y);
    assert(d.day_number_spec() <= days_before_year(y) + days_in_year_spec(y) - 1);
    assert(days_before_year(y + 1) == days_before_year(y) + days_in_year_spec(y));
    lemma_days_before_year_monotone(y + 1, MAX_YEAR as int + 1);
    lemma_days_before_month_full(MAX_YEAR as int);
    assert(days_before_year(MAX_YEAR as int + 1) == days_before_year(MAX_YEAR as int)
        + days_in_year_spec(MAX_YEAR as int));
}

/// Taking the successor of a well-formed date advances its day number
/// by exactly one.
pub proof fn lemma_next_day_number(d: CalendarDate)
    requires
        d.wf(),
    ensures
        d.next_spec().day_number_spec() == d.day_number_spec() + 1,
{
    if d.day < days_in_month_spec(d.year as int, d.month as int) {
    } else if d.month < 12 {
        assert(days_before_month(d.year as int, d.month as int + 1) == days_before_month(
            d.year as int,
            d.month as int,
        ) + days_in_month_spec(d.year as int, d.month as int));
    } else {
        lemma_days_before_month_full(d.year as int);
        assert(days_before_year(d.year as int + 1) == days_before_year(d.year as int)
            + days_in_year_spec(d.year as int));
    }
}

} // verus!
