//! Derivation of a seven-day window of concrete dates from a given day.
//!
//! Two mutually exclusive policies exist and the caller must pick one:
//! the trailing window holds the seven days strictly before the given
//! day (same-day data is often incomplete), and the week window holds
//! Monday through Sunday of the week containing the day. Both return the
//! dates oldest first, and both report a shorter window instead of
//! failing when the calendar runs out at either end of the supported
//! range.

use vstd::prelude::*;
use crate::date::{
    CalendarDate, days_before_year, days_before_month, days_in_year_spec, days_in_month_spec,
    lemma_next_day_number, lemma_day_number_max, lemma_days_before_year_bounds,
    lemma_days_before_year_monotone, lemma_days_before_month_bounds,
    lemma_days_before_month_monotone, lemma_days_before_month_full, MAX_YEAR,
};
use crate::render::{day_string_spec, render_day};
use crate::resolve::{PartialDate, ResolvedDate};

verus! {

/// The last date the calendar supports; windows clamp there.
pub open spec fn last_supported_date() -> CalendarDate {
    CalendarDate { year: MAX_YEAR, month: 12, day: 31 }
}

/// A well-formed date never lies before the first supported date.
pub proof fn lemma_day_number_nonneg(d: CalendarDate)
    requires
        d.wf(),
    ensures
        d.day_number_spec() >= 0,
{
    lemma_days_before_year_bounds(d.year as int);
    lemma_days_before_month_bounds(d.year as int, d.month as int);
}

/// The seven calendar days strictly before `day`, oldest first: day
/// number `n - 7` up to `n - 1` for a day numbered `n`. Near the start
/// of the calendar the window is clamped and only the existing
/// predecessors are returned.
pub fn trailing_window(day: &CalendarDate) -> (window: Vec<CalendarDate>)
    requires
        day.wf(),
    ensures
        window@.len() == if day.day_number_spec() < 7 {
            day.day_number_spec()
        } else {
            7int
        },
        forall|i: int|
            0 <= i < window@.len() ==> (#[trigger] window@[i]).wf() && window@[i].day_number_spec()
                == day.day_number_spec() - window@.len() + i,
        forall|i: int| 0 <= i < window@.len() ==> (#[trigger] window@[i]) != *day,
{
    proof {
        lemma_day_number_nonneg(*day);
    }
    let mut back: Vec<CalendarDate> = Vec::new();
    let mut cur: CalendarDate = *day;
    let mut more: bool = true;
    while more && back.len() < 7
        invariant
            day.wf(),
            cur.wf(),
            back@.len() <= 7,
            cur.day_number_spec() == day.day_number_spec() - back@.len(),
            !more ==> cur.day_number_spec() == 0,
            forall|j: int|
                0 <= j < back@.len() ==> (#[trigger] back@[j]).wf() && back@[j].day_number_spec()
                    == day.day_number_spec() - 1 - j,
        decreases (if more {
            8int - back@.len()
        } else {
            0int
        }),
    {
        match cur.prev_day() {
            Some(p) => {
                proof {
                    lemma_next_day_number(p);
                }
                back.push(p);
                cur = p;
            },
            None => {
                more = false;
            },
        }
    }
    let ghost count = back@.len() as int;
    proof {
        lemma_day_number_nonneg(cur);
        assert(count == if day.day_number_spec() < 7 {
            day.day_number_spec()
        } else {
            7int
        });
    }
    let mut window: Vec<CalendarDate> = Vec::new();
    while back.len() > 0
        invariant
            day.wf(),
            window@.len() + back@.len() == count,
            count == if day.day_number_spec() < 7 {
                day.day_number_spec()
            } else {
                7int
            },
            forall|j: int|
                0 <= j < back@.len() ==> (#[trigger] back@[j]).wf() && back@[j].day_number_spec()
                    == day.day_number_spec() - 1 - j,
            forall|i: int|
                0 <= i < window@.len() ==> (#[trigger] window@[i]).wf()
                    && window@[i].day_number_spec() == day.day_number_spec() - count + i,
        decreases back@.len(),
    {
        match back.pop() {
            Some(d) => {
                window.push(d);
            },
            None => {
                proof {
                    assert(false);
                }
            },
        }
    }
    window
}

/// Monday through Sunday of the week containing `day`, oldest first.
/// The window starts at the Monday (weekday 0), contains `day` at the
/// index of its weekday, and is shorter than seven days only when the
/// calendar ends inside the week.
pub fn week_window(day: &CalendarDate) -> (window: Vec<CalendarDate>)
    requires
        day.wf(),
    ensures
        1 <= window@.len() <= 7,
        forall|i: int|
            0 <= i < window@.len() ==> (#[trigger] window@[i]).wf() && window@[i].day_number_spec()
                == day.day_number_spec() - day.weekday_spec() + i,
        window@[0].weekday_spec() == 0,
        window@[day.weekday_spec()] == *day,
        window@.len() < 7 ==> window@[window@.len() - 1] == last_supported_date(),
{
    proof {
        lemma_day_number_nonneg(*day);
    }
    let wd = day.weekday();
    let mut monday: CalendarDate = *day;
    let mut steps: u32 = 0;
    while steps < wd
        invariant
            day.wf(),
            monday.wf(),
            steps <= wd,
            wd == day.weekday_spec(),
            wd < 7,
            day.day_number_spec() >= 0,
            monday.day_number_spec() == day.day_number_spec() - steps,
        decreases wd - steps,
    {
        match monday.prev_day() {
            Some(p) => {
                proof {
                    lemma_next_day_number(p);
                }
                monday = p;
                steps = steps + 1;
            },
            None => {
                proof {
                    // Unreachable: the first supported date is a Monday,
                    // so a date of weekday `wd` has `wd` predecessors.
                    assert(monday.day_number_spec() == 0);
                    assert(day.day_number_spec() == steps);
                    assert(day.day_number_spec() % 7 == day.day_number_spec());
                    assert(false);
                }
                steps = steps + 1;
            },
        }
    }
    let mut window: Vec<CalendarDate> = Vec::new();
    let mut cur: CalendarDate = monday;
    window.push(monday);
    let mut more: bool = true;
    while more && window.len() < 7
        invariant
            day.wf(),
            cur.wf(),
            1 <= window@.len() <= 7,
            monday.day_number_spec() == day.day_number_spec() - day.weekday_spec(),
            cur == window@[window@.len() - 1],
            forall|i: int|
                0 <= i < window@.len() ==> (#[trigger] window@[i]).wf()
                    && window@[i].day_number_spec() == monday.day_number_spec() + i,
            !more ==> cur == last_supported_date(),
        decreases (if more {
            8int - window@.len()
        } else {
            0int
        }),
    {
        match cur.next_day() {
            Some(n) => {
                proof {
                    lemma_next_day_number(cur);
                }
                window.push(n);
                cur = n;
            },
            None => {
                more = false;
            },
        }
    }
    proof {
        let wdi = day.weekday_spec();
        if window@.len() <= wdi {
            // The window stopped early at the calendar's last date, yet
            // `day` itself would lie at or past that position: it cannot,
            // being a supported date.
            assert(window@[window@.len() - 1] == last_supported_date());
            lemma_day_number_max(*day);
            assert(false);
        }
        assert(window@[wdi].day_number_spec() == day.day_number_spec());
        lemma_day_number_same(window@[wdi], *day);
    }
    window
}

/// Two well-formed dates with one day number are the same date.
pub proof fn lemma_day_number_same(a: CalendarDate, b: CalendarDate)
    requires
        a.wf(),
        b.wf(),
        a.day_number_spec() == b.day_number_spec(),
    ensures
        a == b,
{
    lemma_day_number_distinct(a, b);
    lemma_day_number_distinct(b, a);
}

/// Calendar order on date fields.
pub open spec fn spec_date_lt(a: CalendarDate, b: CalendarDate) -> bool {
    a.year < b.year || (a.year == b.year && a.month < b.month) || (a.year == b.year && a.month
        == b.month && a.day < b.day)
}

/// Equal day numbers rule out calendar order.
proof fn lemma_day_number_distinct(a: CalendarDate, b: CalendarDate)
    requires
        a.wf(),
        b.wf(),
        a.day_number_spec() == b.day_number_spec(),
    ensures
        !spec_date_lt(a, b),
{
    if spec_date_lt(a, b) {
        lemma_date_lt_day_number(a, b);
    }
}

/// An earlier date has a smaller day number.
proof fn lemma_date_lt_day_number(a: CalendarDate, b: CalendarDate)
    requires
        a.wf(),
        b.wf(),
        spec_date_lt(a, b),
    ensures
        a.day_number_spec() < b.day_number_spec(),
{
    if a.year < b.year {
        assert(days_before_month(a.year as int, a.month as int + 1) == days_before_month(
            a.year as int,
            a.month as int,
        ) + days_in_month_spec(a.year as int, a.month as int));
        lemma_days_before_month_monotone(a.year as int, a.month as int + 1, 13);
        lemma_days_before_month_full(a.year as int);
        assert(days_before_year(a.year as int + 1) == days_before_year(a.year as int)
            + days_in_year_spec(a.year as int));
        lemma_days_before_year_monotone(a.year as int + 1, b.year as int);
        lemma_days_before_month_bounds(b.year as int, b.month as int);
    } else if a.month < b.month {
        assert(days_before_month(a.year as int, a.month as int + 1) == days_before_month(
            a.year as int,
            a.month as int,
        ) + days_in_month_spec(a.year as int, a.month as int));
        lemma_days_before_month_monotone(a.year as int, a.month as int + 1, b.month as int);
    }
}

/// `s` is the canonical rendering of the (unique) well-formed date with
/// day number `dn`.
pub open spec fn renders_day_numbered(s: String, dn: int) -> bool {
    exists|d: CalendarDate| d.wf() && d.day_number_spec() == dn && s@ == day_string_spec(d)
}

/// `days` renders, oldest first, the trailing window of the seven days
/// strictly before `day` (clamped at the start of the calendar).
pub open spec fn is_rendered_trailing_window(days: Seq<String>, day: CalendarDate) -> bool {
    &&& days.len() == if day.day_number_spec() < 7 {
        day.day_number_spec()
    } else {
        7int
    }
    &&& forall|i: int|
        0 <= i < days.len() ==> renders_day_numbered(
            #[trigger] days[i],
            day.day_number_spec() - days.len() + i,
        )
}

/// The window policy the original weekly reports use: for an input given
/// to day precision, the seven days strictly before that day, rendered
/// as canonical `YYYY-MM-DD` strings, oldest first. An input without a
/// day, or one that fails calendar validation, yields `None`.
pub fn get_previous_seven_date_from_day(input: &PartialDate) -> (r: Option<Vec<String>>)
    ensures
        match r {
            Some(days) => input.valid_spec() && input.day is Some && is_rendered_trailing_window(
                days@,
                input.resolved_spec()->Day_0,
            ),
            None => !(input.valid_spec() && input.day is Some),
        },
{
    let day = match input.day {
        Some(_) => {
            match input.resolve() {
                Ok(ResolvedDate::Day(d)) => d,
                _ => {
                    return None;
                },
            }
        },
        None => {
            return None;
        },
    };
    let window = trailing_window(&day);
    let mut days: Vec<String> = Vec::new();
    let mut i: usize = 0;
    while i < window.len()
        invariant
            i <= window@.len(),
            days@.len() == i,
            forall|j: int|
                0 <= j < window@.len() ==> (#[trigger] window@[j]).wf()
                    && window@[j].day_number_spec() == day.day_number_spec() - window@.len() + j,
            forall|j: int| 0 <= j < i ==> (#[trigger] days@[j])@ == day_string_spec(window@[j]),
        decreases window@.len() - i,
    {
        days.push(render_day(&window[i]));
        i = i + 1;
    }
    proof {
        let ds = days@;
        assert forall|i2: int| 0 <= i2 < ds.len() implies renders_day_numbered(
            #[trigger] ds[i2],
            day.day_number_spec() - ds.len() + i2,
        ) by {
            let w = window@[i2];
            assert(w.wf() && w.day_number_spec() == day.day_number_spec() - ds.len() + i2
                && ds[i2]@ == day_string_spec(w));
        }
        assert(is_rendered_trailing_window(days@, day));
    }
    Some(days)
}

} // verus!
