//! The decision core shared by every query handler: validate the date,
//! check the geographic scope, and produce the plan the query layer
//! needs. No query is ever issued on invalid input — both checks happen
//! before any I/O, the date first, as every handler does.
//!
//! The per-entity handlers differ only in table names and field lists;
//! they all instantiate this one pipeline: prepare a plan, run the
//! query outside, then decode and collect through the executor.

use vstd::prelude::*;
use vstd::string::*;
use crate::err::{MaskErr, PcrErr};
use crate::resolve::PartialDate;
use crate::window::{get_previous_seven_date_from_day, is_rendered_trailing_window};

verus! {

/// The geographic scope as the request carries it: a department code
/// that may be absent, a region code that may be absent, or the whole
/// country.
#[derive(Debug)]
pub enum ScopeInput {
    Department(Option<String>),
    Region(Option<i32>),
    National,
}

/// A validated geographic scope: every required code is present.
#[derive(Debug)]
pub enum Scope {
    Department(String),
    Region(i32),
    National,
}

/// Everything the query layer needs for one flat query: the anchored
/// date pattern to prefix-match, and the validated scope to bind.
#[derive(Debug)]
pub struct QueryPlan {
    pub pattern: String,
    pub scope: Scope,
}

/// Everything the query layer needs for one weekly report: the window
/// of rendered dates to fetch one by one, and the department they are
/// fetched for.
#[derive(Debug)]
pub struct WeekPlan {
    pub dates: Vec<String>,
    pub department: String,
}

/// Requires the date of a request that carries it as an optional
/// field: an absent date is rejected as `MissingDate` before anything
/// else is looked at.
pub fn require_date(date: Option<PartialDate>) -> (res: Result<PartialDate, MaskErr>)
    ensures
        match date {
            Some(d) => res == Result::<PartialDate, MaskErr>::Ok(d),
            None => res == Result::<PartialDate, MaskErr>::Err(MaskErr::MissingDate),
        },
{
    match date {
        Some(d) => Ok(d),
        None => Err(MaskErr::MissingDate),
    }
}

/// Validates a request and produces its query plan. The date is checked
/// first: an input that cannot form a real calendar date (or month) is
/// rejected as `InvalidDate`. A scope whose required code is absent is
/// then rejected as `MissingParam` naming the missing field. On success
/// the plan carries the LIKE pattern of the resolved date and the
/// validated scope.
pub fn prepare_query(date: &PartialDate, scope: ScopeInput) -> (res: Result<QueryPlan, MaskErr>)
    ensures
        !date.valid_spec() ==> res == Result::<QueryPlan, MaskErr>::Err(MaskErr::InvalidDate),
        date.valid_spec() ==> match scope {
            ScopeInput::Department(None) => res matches Err(e) && (e matches MaskErr::MissingParam(
                p,
            ) && p@ == "department"@),
            ScopeInput::Region(None) => res matches Err(e) && (e matches MaskErr::MissingParam(p)
                && p@ == "region"@),
            ScopeInput::Department(Some(code)) => res matches Ok(plan) && plan.pattern@
                == date.resolved_spec().like_pattern_spec() && plan.scope == Scope::Department(
                code,
            ),
            ScopeInput::Region(Some(code)) => res matches Ok(plan) && plan.pattern@
                == date.resolved_spec().like_pattern_spec() && plan.scope == Scope::Region(code),
            ScopeInput::National => res matches Ok(plan) && plan.pattern@
                == date.resolved_spec().like_pattern_spec() && plan.scope == Scope::National,
        },
{
    let resolved = match date.resolve() {
        Ok(r) => r,
        Err(e) => {
            return Err(e);
        },
    };
    let scope = match scope {
        ScopeInput::Department(Some(code)) => Scope::Department(code),
        ScopeInput::Department(None) => {
            return Err(MaskErr::MissingParam(String::from_str("department")));
        },
        ScopeInput::Region(Some(code)) => Scope::Region(code),
        ScopeInput::Region(None) => {
            return Err(MaskErr::MissingParam(String::from_str("region")));
        },
        ScopeInput::National => Scope::National,
    };
    Ok(QueryPlan { pattern: resolved.to_like_pattern(), scope })
}

/// Validates a weekly request and produces its plan: the trailing
/// window of the seven days before the given day, rendered oldest
/// first, and the department to fetch them for. A request without a
/// day, or with a date that fails calendar validation, is rejected as
/// `InvalidDate` before any query could run.
pub fn prepare_week_query(date: &PartialDate, department: String) -> (res: Result<
    WeekPlan,
    PcrErr,
>)
    ensures
        date.valid_spec() && date.day is Some ==> (res matches Ok(plan)
            && is_rendered_trailing_window(plan.dates@, date.resolved_spec()->Day_0)
            && plan.department == department),
        !(date.valid_spec() && date.day is Some) ==> (res matches Err(e) && e
            == PcrErr::InvalidDate),
{
    match get_previous_seven_date_from_day(date) {
        Some(dates) => Ok(WeekPlan { dates, department }),
        None => Err(PcrErr::InvalidDate),
    }
}

} // verus!
