//! Resolution of a possibly-partial date into a validated query key.
//!
//! A request carries a year, a month, and an optional day. With a day the
//! triple must name a real calendar date; without one the year and month
//! alone are validated (the day is pinned to 1 for the check, since the
//! first day exists in every valid month). Only validated values become a
//! [`ResolvedDate`], and the resolver never hands raw input downstream:
//! the query layer receives the rendered [LIKE pattern] only.
//!
//! [LIKE pattern]: ResolvedDate::to_like_pattern

use vstd::prelude::*;
use vstd::string::*;
use crate::date::{CalendarDate, valid_date_spec, date_exists, MIN_YEAR, MAX_YEAR};
use crate::err::MaskErr;
use crate::render::{
    day_string_spec, month_string_spec, render_day, render_month, four_digits, two_digits,
};

verus! {

/// A date given to day precision, or only to month precision when `day`
/// is absent. This is raw request input; nothing is validated yet.
#[derive(Clone, Copy, Debug, PartialEq, Eq)]
pub struct PartialDate {
    pub year: i32,
    pub month: i32,
    pub day: Option<i32>,
}

/// A validated query key: one exact calendar day, or one whole month.
/// Values of this type come out of [`PartialDate::resolve`] only.
#[derive(Clone, Copy, Debug, PartialEq, Eq, Structural)]
pub enum ResolvedDate {
    Day(CalendarDate),
    Month { year: i32, month: i32 },
}

impl PartialDate {
    /// The year of the request.
    pub fn get_year(&self) -> (y: i32)
        ensures
            y == self.year,
    {
        self.year
    }

    /// The month of the request.
    pub fn get_month(&self) -> (m: i32)
        ensures
            m == self.month,
    {
        self.month
    }

    /// The day of the request; absent when only the month is wanted.
    pub fn get_day(&self) -> (d: Option<i32>)
        ensures
            d == self.day,
    {
        self.day
    }

    /// The input passes strict Gregorian validation.
    pub open spec fn valid_spec(self) -> bool {
        match self.day {
            Some(d) => valid_date_spec(self.year as int, self.month as int, d as int),
            None => MIN_YEAR <= self.year <= MAX_YEAR && 1 <= self.month <= 12,
        }
    }

    /// The key a valid input resolves to.
    pub open spec fn resolved_spec(self) -> ResolvedDate {
        match self.day {
            Some(d) => ResolvedDate::Day(
                CalendarDate { year: self.year, month: self.month, day: d },
            ),
            None => ResolvedDate::Month { year: self.year, month: self.month },
        }
    }

    /// What resolution returns, for every input.
    pub open spec fn resolve_spec(self) -> Result<ResolvedDate, MaskErr> {
        if self.valid_spec() {
            Ok(self.resolved_spec())
        } else {
            Err(MaskErr::InvalidDate)
        }
    }

    /// Validates the input and produces the query key: a day key when a
    /// day is present, a month key otherwise. Any input that does not
    /// name a real calendar date (or month) is rejected before any query
    /// could run.
    pub fn resolve(&self) -> (r: Result<ResolvedDate, MaskErr>)
        ensures
            r == self.resolve_spec(),
            r matches Ok(res) ==> res.wf(),
    {
        match self.day {
            Some(d) => {
                if date_exists(self.year, self.month, d) {
                    Ok(ResolvedDate::Day(
                        CalendarDate { year: self.year, month: self.month, day: d },
                    ))
                } else {
                    Err(MaskErr::InvalidDate)
                }
            },
            None => {
                if date_exists(self.year, self.month, 1) {
                    Ok(ResolvedDate::Month { year: self.year, month: self.month })
                } else {
                    Err(MaskErr::InvalidDate)
                }
            },
        }
    }

    /// Renders the validated key as its canonical date string:
    /// `YYYY-MM-DD` for a full day, `YYYY-MM` for a whole month.
    pub fn build_date(&self) -> (r: Result<String, MaskErr>)
        ensures
            self.valid_spec() ==> (r matches Ok(s) && s@ == self.resolved_spec().date_string_spec()),
            !self.valid_spec() ==> r == Result::<String, MaskErr>::Err(MaskErr::InvalidDate),
    {
        match self.resolve() {
            Ok(resolved) => Ok(resolved.to_date_string()),
            Err(e) => Err(e),
        }
    }

    /// Renders the validated key as the anchored LIKE pattern handed to
    /// the query layer: the canonical date string with a trailing `%`.
    pub fn build_date_sql_like(&self) -> (r: Result<String, MaskErr>)
        ensures
            self.valid_spec() ==> (r matches Ok(s) && s@ == self.resolved_spec().like_pattern_spec()),
            !self.valid_spec() ==> r == Result::<String, MaskErr>::Err(MaskErr::InvalidDate),
    {
        match self.resolve() {
            Ok(resolved) => Ok(resolved.to_like_pattern()),
            Err(e) => Err(e),
        }
    }
}

impl ResolvedDate {
    /// Every resolved key names a real day or a real month.
    pub open spec fn wf(self) -> bool {
        match self {
            ResolvedDate::Day(d) => d.wf(),
            ResolvedDate::Month { year, month } => MIN_YEAR <= year <= MAX_YEAR && 1 <= month
                <= 12,
        }
    }

    /// The canonical date string of the key: `YYYY-MM-DD` or `YYYY-MM`.
    pub open spec fn date_string_spec(self) -> Seq<char> {
        match self {
            ResolvedDate::Day(d) => day_string_spec(d),
            ResolvedDate::Month { year, month } => month_string_spec(year as int, month as int),
        }
    }

    /// The LIKE pattern of the key: its date string plus a trailing
    /// wildcard, so a day key prefix-matches one day and a month key
    /// every day of its month.
    pub open spec fn like_pattern_spec(self) -> Seq<char> {
        self.date_string_spec() + seq!['%']
    }

    /// Renders the canonical date string.
    pub fn to_date_string(&self) -> (s: String)
        requires
            self.wf(),
        ensures
            s@ == self.date_string_spec(),
    {
        match self {
            ResolvedDate::Day(d) => render_day(d),
            ResolvedDate::Month { year, month } => render_month(*year, *month),
        }
    }

    /// Renders the LIKE pattern.
    pub fn to_like_pattern(&self) -> (s: String)
        requires
            self.wf(),
        ensures
            s@ == self.like_pattern_spec(),
    {
        let mut s = self.to_date_string();
        s.append("%");
        proof {
            reveal_strlit("%");
            assert("%"@ =~= seq!['%']);
            assert(s@ =~= self.like_pattern_spec());
        }
        s
    }
}

/// Every real `(year, month, day)` triple resolves to a day key whose
/// pattern is its zero-padded `YYYY-MM-DD` rendering with one trailing
/// wildcard.
pub proof fn lemma_resolve_full_day(p: PartialDate, d: i32)
    requires
        p.day == Some(d),
        valid_date_spec(p.year as int, p.month as int, d as int),
    ensures
        p.resolve_spec() matches Ok(r) && r == ResolvedDate::Day(
            CalendarDate { year: p.year, month: p.month, day: d },
        ) && r.like_pattern_spec() =~= four_digits(p.year as int) + seq!['-'] + two_digits(
            p.month as int,
        ) + seq!['-'] + two_digits(d as int) + seq!['%'],
{
}

/// Every `(year, month)` pair with a real month and no day resolves to a
/// month key whose pattern is its `YYYY-MM` rendering with one trailing
/// wildcard.
pub proof fn lemma_resolve_whole_month(p: PartialDate)
    requires
        p.day is None,
        MIN_YEAR <= p.year <= MAX_YEAR,
        1 <= p.month <= 12,
    ensures
        p.resolve_spec() matches Ok(r) && r == (ResolvedDate::Month {
            year: p.year,
            month: p.month,
        }) && r.like_pattern_spec() =~= four_digits(p.year as int) + seq!['-'] + two_digits(
            p.month as int,
        ) + seq!['%'],
{
}

/// Resolution is deterministic: two resolutions of one partial date give
/// the same key, and therefore the same pattern.
pub proof fn lemma_resolve_deterministic(
    p: PartialDate,
    r1: Result<ResolvedDate, MaskErr>,
    r2: Result<ResolvedDate, MaskErr>,
)
    requires
        r1 == p.resolve_spec(),
        r2 == p.resolve_spec(),
    ensures
        r1 == r2,
        r1 matches Ok(a) ==> r2 matches Ok(b) && a.like_pattern_spec() == b.like_pattern_spec(),
{
}

/// A LIKE pattern is always anchored: it starts with a digit of the
/// year, never with a wildcard, so it can only prefix-match its own
/// year's dates.
pub proof fn lemma_pattern_anchored(r: ResolvedDate)
    ensures
        r.like_pattern_spec().len() > 0,
        r.like_pattern_spec()[0] != '%',
        r.like_pattern_spec().last() == '%',
{
    assert(r.like_pattern_spec()[0] == crate::render::digit_char(
        match r {
            ResolvedDate::Day(d) => d.year as int / 1000 % 10,
            ResolvedDate::Month { year, month } => year as int / 1000 % 10,
        },
    ));
}

} // verus!
