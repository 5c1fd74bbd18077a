//! Native rows and their decoding into typed values.

use vstd::prelude::*;
use crate::backend::Backend;
use crate::error::Error;
use crate::stream::{collected, preceded, viewed};

verus! {

/// A value that can be produced from one native row of the backend `DB`.
pub trait FromRow<DB: Backend>: Sized {
    /// What `row` decodes to: the value, or the decode error where the
    /// row's shape or types do not fit.
    spec fn decoded(row: DB::Row) -> Result<Self, Error>;

    /// Decodes `row`.
    fn from_row(row: DB::Row) -> (outcome: Result<Self, Error>)
        ensures
            outcome == Self::decoded(row),
    ;
}

/// A native row of the backend `DB`, kept as it came. This is what a query
/// yields until it is cast to another output type.
pub struct Row<DB: Backend>(pub DB::Row);

impl<DB: Backend> FromRow<DB> for Row<DB> {
    open spec fn decoded(row: DB::Row) -> Result<Self, Error> {
        Ok(Row(row))
    }

    fn from_row(row: DB::Row) -> (outcome: Result<Self, Error>) {
        Ok(Row(row))
    }
}

/// What one item of a stream of native rows decodes to: a row is decoded,
/// a failure stays the failure it is.
pub open spec fn item_decoded<DB: Backend, O: FromRow<DB>>(item: Result<DB::Row, Error>) -> Result<
    O,
    Error,
> {
    match item {
        Ok(row) => O::decoded(row),
        Err(e) => Err(e),
    }
}

/// `items` with each item decoded on its own, in place.
pub open spec fn each_decoded<DB: Backend, O: FromRow<DB>>(
    items: Seq<Result<DB::Row, Error>>,
) -> Seq<Result<O, Error>> {
    items.map_values(|item: Result<DB::Row, Error>| item_decoded::<DB, O>(item))
}

/// What "at most one native row" decodes to: nothing stays nothing, a row
/// is decoded, a failure stays the failure it is.
pub open spec fn optional_decoded<DB: Backend, O: FromRow<DB>>(
    found: Result<Option<DB::Row>, Error>,
) -> Result<Option<O>, Error> {
    match found {
        Ok(None) => Ok(None),
        Ok(Some(row)) => match O::decoded(row) {
            Ok(value) => Ok(Some(value)),
            Err(e) => Err(e),
        },
        Err(e) => Err(e),
    }
}

/// What a materialized sequence of native rows decodes to: every decoded
/// value in the order of the rows, unless some row fails to decode, in
/// which case the error of the first such row.
pub open spec fn rows_decoded<DB: Backend, O: FromRow<DB>>(rows: Seq<DB::Row>) -> Result<
    Seq<O>,
    Error,
> {
    collected(rows.map_values(|row: DB::Row| O::decoded(row)))
}

/// What the answer to "all rows" decodes to: a failure stays the failure
/// it is, and rows are decoded as `rows_decoded` says.
pub open spec fn all_decoded<DB: Backend, O: FromRow<DB>>(
    found: Result<Seq<DB::Row>, Error>,
) -> Result<Seq<O>, Error> {
    match found {
        Ok(rows) => rows_decoded::<DB, O>(rows),
        Err(e) => Err(e),
    }
}

/// Decodes one item of a stream of native rows.
pub fn decode_item<DB: Backend, O: FromRow<DB>>(item: Result<DB::Row, Error>) -> (outcome: Result<
    O,
    Error,
>)
    ensures
        outcome == item_decoded::<DB, O>(item),
{
    match item {
        Ok(row) => O::from_row(row),
        Err(e) => Err(e),
    }
}

/// Decodes the answer to "at most one row".
pub fn decode_optional<DB: Backend, O: FromRow<DB>>(found: Result<Option<DB::Row>, Error>) -> (outcome:
    Result<Option<O>, Error>)
    ensures
        outcome == optional_decoded::<DB, O>(found),
{
    match found {
        Ok(None) => Ok(None),
        Ok(Some(row)) => match O::from_row(row) {
            Ok(value) => Ok(Some(value)),
            Err(e) => Err(e),
        },
        Err(e) => Err(e),
    }
}

/// Decodes the answer to "all rows", row by row from the first, and stops
/// at the first row that fails to decode.
pub fn decode_all<DB: Backend, O: FromRow<DB>>(found: Result<Vec<DB::Row>, Error>) -> (outcome:
    Result<Vec<O>, Error>)
    ensures
        viewed(outcome) == all_decoded::<DB, O>(viewed(found)),
{
    let rows = match found {
        Ok(rows) => rows,
        Err(e) => { return Err(e); },
    };
    let ghost all = rows@;
    let mut values: Vec<O> = Vec::new();
    assert(all.skip(0) =~= all);
    for row in iter: rows.into_iter()
        invariant
            iter.seq() == all,
            viewed(found) == Ok::<Seq<DB::Row>, Error>(all),
            rows_decoded::<DB, O>(all) == preceded(
                values@,
                rows_decoded::<DB, O>(all.skip(iter.index())),
            ),
    {
        let ghost at = iter.index();
        proof {
            let left = all.skip(at).map_values(|row: DB::Row| O::decoded(row));
            let later = all.skip(at + 1).map_values(|row: DB::Row| O::decoded(row));
            assert(left.skip(1) =~= later);
        }
        match O::from_row(row) {
            Ok(value) => {
                proof {
                    if let Ok(rest) = rows_decoded::<DB, O>(all.skip(at + 1)) {
                        assert(values@ + (seq![value] + rest) =~= values@.push(value) + rest);
                    }
                }
                values.push(value);
            },
            Err(e) => {
                return Err(e);
            },
        }
    }
    Ok(values)
}

} // verus!
