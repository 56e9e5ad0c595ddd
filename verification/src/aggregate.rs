//! Folding one window of per-day fetch outcomes into a weekly report.
//!
//! Upstream daily ingestion can have gaps, so a day with no row is
//! skipped silently: it neither appears among the daily values nor
//! aborts the report. A query failure is different — it signals
//! infrastructure trouble, not data sparsity — and aborts immediately
//! with the first failure's detail. The summary is the raw sum of the
//! metric over the days actually present; it is deliberately not
//! normalized by the number of present days.

use vstd::prelude::*;
use crate::err::MaskErr;

verus! {

/// The outcome of fetching one day of the window: a decoded value, no
/// row for that day, or a query failure with its detail.
pub enum DayFetch<T> {
    Found(T),
    NotFound,
    Failed(String),
}

/// The values of the `Found` outcomes, in window order.
pub open spec fn found_values<T>(days: Seq<DayFetch<T>>) -> Seq<T>
    decreases days.len(),
{
    if days.len() == 0 {
        Seq::empty()
    } else {
        match days.last() {
            DayFetch::Found(t) => found_values(days.drop_last()).push(t),
            _ => found_values(days.drop_last()),
        }
    }
}

/// Some day of the window failed to fetch.
pub open spec fn has_failure<T>(days: Seq<DayFetch<T>>) -> bool {
    exists|i: int| 0 <= i < days.len() && (#[trigger] days[i]) is Failed
}

/// There are never more present values than days.
pub proof fn lemma_found_values_len<T>(days: Seq<DayFetch<T>>)
    ensures
        found_values(days).len() <= days.len(),
    decreases days.len(),
{
    if days.len() > 0 {
        lemma_found_values_len(days.drop_last());
    }
}

/// Keeps the values of the days that have one, in window order, and
/// aborts with the first failure's detail when any day failed.
pub fn collect_window<T>(days: Vec<DayFetch<T>>) -> (res: Result<Vec<T>, MaskErr>)
    ensures
        !has_failure(days@) ==> (res matches Ok(values) && values@ == found_values(days@)),
        has_failure(days@) ==> exists|i: int|
            {
                &&& 0 <= i < days@.len()
                &&& (#[trigger] days@[i]) matches DayFetch::Failed(detail)
                &&& (forall|j: int| 0 <= j < i ==> !((#[trigger] days@[j]) is Failed))
                &&& (res matches Err(e) && e == MaskErr::QueryError(detail))
            },
{
    let ghost all = days@;
    let mut rest = days;
    let mut values: Vec<T> = Vec::new();
    let mut failure: Option<String> = None;
    let ghost mut k: int = 0;
    let ghost mut fail_idx: int = 0;
    while rest.len() > 0 && failure.is_none()
        invariant
            0 <= k <= all.len(),
            failure is None ==> rest@ == all.subrange(k, all.len() as int),
            failure is None ==> values@ == found_values(all.subrange(0, k)),
            failure is None ==> forall|j: int| 0 <= j < k ==> !((#[trigger] all[j]) is Failed),
            failure matches Some(detail) ==> {
                &&& 0 <= fail_idx < all.len()
                &&& all[fail_idx] matches DayFetch::Failed(fd) && fd == detail
                &&& forall|j: int| 0 <= j < fail_idx ==> !((#[trigger] all[j]) is Failed)
            },
        decreases rest@.len(), (if failure is None {
            1int
        } else {
            0int
        }),
    {
        let day = rest.remove(0);
        proof {
            assert(all.subrange(k, all.len() as int)[0] == all[k]);
            assert(all.subrange(k, all.len() as int).remove(0) =~= all.subrange(
                k + 1,
                all.len() as int,
            ));
            assert(all.subrange(0, k + 1).drop_last() =~= all.subrange(0, k));
            assert(all.subrange(0, k + 1).last() == all[k]);
        }
        match day {
            DayFetch::Found(t) => {
                values.push(t);
                proof {
                    k = k + 1;
                }
            },
            DayFetch::NotFound => {
                proof {
                    k = k + 1;
                }
            },
            DayFetch::Failed(detail) => {
                proof {
                    fail_idx = k;
                }
                failure = Some(detail);
            },
        }
    }
    match failure {
        Some(detail) => {
            proof {
                assert(all[fail_idx] is Failed);
            }
            Err(MaskErr::QueryError(detail))
        },
        None => {
            proof {
                assert(all.subrange(0, k) =~= all);
            }
            Ok(values)
        },
    }
}

/// The sum of a sequence of metric values, as an unbounded integer.
pub open spec fn sum_of(ms: Seq<i32>) -> int
    decreases ms.len(),
{
    if ms.len() == 0 {
        0
    } else {
        sum_of(ms.drop_last()) + ms.last()
    }
}

/// A weekly report: the per-day values actually present, oldest first,
/// and the raw sum of the designated metric over exactly those values.
pub struct AggregateResult<T> {
    pub daily: Vec<T>,
    pub summary: i64,
}

/// `ms` holds one metric value per entry of `values`, in order.
pub open spec fn is_metrics_of<T, F: Fn(&T) -> i32>(ms: Seq<i32>, values: Seq<T>, metric: F) -> bool {
    &&& ms.len() == values.len()
    &&& forall|i: int|
        0 <= i < ms.len() ==> call_ensures(metric, (&values[i],), #[trigger] ms[i])
}

/// Folds one window of per-day outcomes into a weekly report: absent
/// days are skipped, a failed day aborts with the first failure's
/// detail, and the summary is the raw, unnormalized sum of the metric
/// over the present days.
pub fn aggregate<T>(days: Vec<DayFetch<T>>, metric: impl Fn(&T) -> i32) -> (res: Result<
    AggregateResult<T>,
    MaskErr,
>)
    requires
        days@.len() <= 7,
        forall|t: T| call_requires(metric, (&t,)),
    ensures
        !has_failure(days@) ==> (res matches Ok(agg) && agg.daily@ == found_values(days@)
            && exists|ms: Seq<i32>|
            is_metrics_of(ms, agg.daily@, metric) && agg.summary == sum_of(ms)),
        has_failure(days@) ==> exists|i: int|
            {
                &&& 0 <= i < days@.len()
                &&& (#[trigger] days@[i]) matches DayFetch::Failed(detail)
                &&& (forall|j: int| 0 <= j < i ==> !((#[trigger] days@[j]) is Failed))
                &&& (res matches Err(e) && e == MaskErr::QueryError(detail))
            },
{
    proof {
        lemma_found_values_len(days@);
    }
    let ghost all = days@;
    let daily = match collect_window(days) {
        Ok(values) => values,
        Err(e) => {
            return Err(e);
        },
    };
    let mut summary: i64 = 0;
    let ghost mut ms: Seq<i32> = Seq::empty();
    let mut i: usize = 0;
    while i < daily.len()
        invariant
            i <= daily@.len(),
            daily@.len() <= 7,
            daily@ == found_values(all),
            ms.len() == i,
            forall|j: int| 0 <= j < i ==> call_ensures(metric, (&daily@[j],), #[trigger] ms[j]),
            summary == sum_of(ms),
            -(0x80000000int) * i <= summary <= 0x7fffffffint * i,
            forall|t: T| call_requires(metric, (&t,)),
        decreases daily@.len() - i,
    {
        let m = metric(&daily[i]);
        proof {
            let prior = ms;
            ms = ms.push(m);
            assert(ms.drop_last() =~= prior);
            assert(ms.last() == m);
        }
        summary = summary + (m as i64);
        i = i + 1;
    }
    proof {
        assert(is_metrics_of(ms, daily@, metric));
    }
    Ok(AggregateResult { daily, summary })
}

/// The raw weekly summary of a list of per-day metric values: their
/// plain sum, deliberately not divided by the number of present days.
pub fn sum_metrics(metrics: &Vec<i32>) -> (total: i64)
    requires
        metrics@.len() <= 7,
    ensures
        total == sum_of(metrics@),
{
    let mut total: i64 = 0;
    let mut i: usize = 0;
    while i < metrics.len()
        invariant
            i <= metrics@.len(),
            metrics@.len() <= 7,
            total == sum_of(metrics@.subrange(0, i as int)),
            -(0x80000000int) * i <= total <= 0x7fffffffint * i,
        decreases metrics@.len() - i,
    {
        proof {
            assert(metrics@.subrange(0, i + 1).drop_last() =~= metrics@.subrange(0, i as int));
            assert(metrics@.subrange(0, i + 1).last() == metrics@[i as int]);
        }
        total = total + (metrics[i] as i64);
        i = i + 1;
    }
    proof {
        assert(metrics@.subrange(0, metrics@.len() as int) =~= metrics@);
    }
    total
}

} // verus!
