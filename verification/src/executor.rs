//! The generic streaming-query pipeline: rows come out of an externally
//! owned cursor, each row runs through a fallible decoder, and the typed
//! values are collected in row order.
//!
//! A decode failure fails the whole operation — it signals a schema or
//! logic bug, never a transient condition — and no partial list is
//! returned. A cursor failure is kept distinct (`Connection` rather than
//! `Exec`) so callers can tell bad data from a bad connection. Zero rows
//! for a single-row query is not an error: it means "no data for this
//! day" and is reported as `None`.

use vstd::prelude::*;
use crate::err::DBError;

verus! {

/// Decodes every fetched row, in order. Returns the decoded values when
/// all rows decode; fails with `DBError::Exec`, returning nothing else,
/// as soon as one row does not.
pub fn execute<R, T>(rows: &Vec<R>, decode: impl Fn(&R) -> Option<T>) -> (res: Result<
    Vec<T>,
    DBError,
>)
    requires
        forall|i: int| #![trigger rows@[i]] 0 <= i < rows@.len() ==> call_requires(
            decode,
            (&rows@[i],),
        ),
    ensures
        match res {
            Ok(values) => values@.len() == rows@.len() && forall|i: int|
                #![trigger values@[i]]
                0 <= i < rows@.len() ==> call_ensures(decode, (&rows@[i],), Some(values@[i])),
            Err(e) => e == DBError::Exec && exists|i: int|
                0 <= i < rows@.len() && call_ensures(decode, (#[trigger] &rows@[i],), None::<T>),
        },
{
    let mut values: Vec<T> = Vec::new();
    let mut i: usize = 0;
    while i < rows.len()
        invariant
            i <= rows@.len(),
            values@.len() == i,
            forall|j: int| #![trigger rows@[j]] 0 <= j < rows@.len() ==> call_requires(
                decode,
                (&rows@[j],),
            ),
            forall|j: int|
                #![trigger values@[j]]
                0 <= j < i ==> call_ensures(decode, (&rows@[j],), Some(values@[j])),
        decreases rows@.len() - i,
    {
        match decode(&rows[i]) {
            Some(value) => {
                values.push(value);
            },
            None => {
                return Err(DBError::Exec);
            },
        }
        i = i + 1;
    }
    Ok(values)
}

/// Runs the decode pipeline on the outcome of a streaming fetch: a
/// cursor failure carrying its detail propagates as a `Connection`
/// error before any decoding, everything else behaves as [`execute`].
pub fn execute_fetched<R, T>(
    fetched: Result<Vec<R>, String>,
    decode: impl Fn(&R) -> Option<T>,
) -> (res: Result<Vec<T>, DBError>)
    requires
        fetched matches Ok(rows) ==> forall|i: int| #![trigger rows@[i]] 0 <= i < rows@.len()
            ==> call_requires(decode, (&rows@[i],)),
    ensures
        match fetched {
            Ok(rows) => match res {
                Ok(values) => values@.len() == rows@.len() && forall|i: int|
                    #![trigger values@[i]]
                    0 <= i < rows@.len() ==> call_ensures(decode, (&rows@[i],), Some(values@[i])),
                Err(e) => e == DBError::Exec && exists|i: int|
                    0 <= i < rows@.len() && call_ensures(
                        decode,
                        (#[trigger] &rows@[i],),
                        None::<T>,
                    ),
            },
            Err(detail) => res matches Err(DBError::Connection(d)) && d == detail,
        },
{
    match fetched {
        Ok(rows) => execute(&rows, decode),
        Err(detail) => Err(DBError::Connection(detail)),
    }
}

/// Incremental decoding of a streamed result set: the caller feeds rows
/// one by one as the cursor yields them, so the full raw result set is
/// never held in memory and the cursor can be abandoned at the first
/// decode failure.
pub struct RowCollector<T> {
    values: Vec<T>,
    failure: Option<DBError>,
}

impl<T> RowCollector<T> {
    /// The values decoded so far, in row order.
    pub closed spec fn values_spec(self) -> Seq<T> {
        self.values@
    }

    /// The failure that ended the stream, if one did.
    pub closed spec fn failure_spec(self) -> Option<DBError> {
        self.failure
    }

    /// The stream is still being consumed.
    pub open spec fn live_spec(self) -> bool {
        self.failure_spec() is None
    }

    /// An empty collector for a freshly opened cursor.
    pub fn new() -> (c: RowCollector<T>)
        ensures
            c.live_spec(),
            c.values_spec() == Seq::<T>::empty(),
    {
        RowCollector { values: Vec::new(), failure: None }
    }

    /// Decodes one streamed row. Returns whether the caller should keep
    /// reading the cursor: a decode failure fails the whole operation
    /// and the rest of the stream need not be fetched.
    pub fn push_row<R>(&mut self, row: &R, decode: impl Fn(&R) -> Option<T>) -> (keep_going:
        bool)
        requires
            old(self).live_spec(),
            call_requires(decode, (row,)),
        ensures
            keep_going ==> final(self).live_spec() && final(self).values_spec() == old(self)
                .values_spec().push(final(self).values_spec().last()) && call_ensures(
                decode,
                (row,),
                Some(final(self).values_spec().last()),
            ),
            !keep_going ==> final(self).failure_spec() == Some(DBError::Exec) && final(self)
                .values_spec() == old(self).values_spec() && call_ensures(
                decode,
                (row,),
                None::<T>,
            ),
    {
        match decode(row) {
            Some(value) => {
                self.values.push(value);
                true
            },
            None => {
                self.failure = Some(DBError::Exec);
                false
            },
        }
    }

    /// Records that the cursor itself failed, with its detail; distinct
    /// from a decode failure so callers can tell bad data from a bad
    /// connection.
    pub fn cursor_failed(&mut self, detail: String)
        requires
            old(self).live_spec(),
        ensures
            final(self).failure_spec() == Some(DBError::Connection(detail)),
            final(self).values_spec() == old(self).values_spec(),
    {
        self.failure = Some(DBError::Connection(detail));
    }

    /// Ends the stream: every row decoded means the collected values
    /// come back whole; any recorded failure means no partial list.
    pub fn finish(self) -> (res: Result<Vec<T>, DBError>)
        ensures
            match self.failure_spec() {
                None => res matches Ok(values) && values@ == self.values_spec(),
                Some(e) => res matches Err(err) && err == e,
            },
    {
        match self.failure {
            Some(e) => Err(e),
            None => Ok(self.values),
        }
    }
}

/// The single-row variant used by per-day window queries. Zero matching
/// rows is not a failure: it reports `Ok(None)`, "no data for this day",
/// which callers treat differently from a query failure.
pub fn execute_one<R, T>(
    fetched: Result<Option<R>, String>,
    decode: impl Fn(&R) -> Option<T>,
) -> (res: Result<Option<T>, DBError>)
    requires
        fetched matches Ok(Some(row)) ==> call_requires(decode, (&row,)),
    ensures
        match fetched {
            Ok(Some(row)) => match res {
                Ok(Some(value)) => call_ensures(decode, (&row,), Some(value)),
                Ok(None) => false,
                Err(e) => e == DBError::Exec && call_ensures(decode, (&row,), None::<T>),
            },
            Ok(None) => res matches Ok(opt) && opt is None,
            Err(detail) => res matches Err(DBError::Connection(d)) && d == detail,
        },
{
    match fetched {
        Ok(Some(row)) => {
            match decode(&row) {
                Some(value) => Ok(Some(value)),
                None => Err(DBError::Exec),
            }
        },
        Ok(None) => Ok(None),
        Err(detail) => Err(DBError::Connection(detail)),
    }
}

} // verus!
