//! The query, its five ways of running, and what holds of them.

use vstd::prelude::*;
use core::marker::PhantomData;
use crate::backend::{Backend, HasSqlType};
use crate::encode::Encode;
use crate::error::Error;
use crate::executor::Executor;
use crate::params::QueryParameters;
use crate::statement::Statement;
use crate::row::{
    all_decoded, decode_all, decode_item, decode_optional, each_decoded, item_decoded,
    optional_decoded, rows_decoded, FromRow, Row,
};
use crate::stream::{
    collected, emitted, first_of, lemma_collected_emitted, one_of, viewed, RowStream,
};

verus! {

/// An SQL statement for the backend `DB` whose rows decode into `O`.
///
/// The text never changes. The parameters only grow, by `bind`. The output
/// type is a matter of the type alone and costs nothing until a row is
/// decoded. Every operation that runs the query takes it by value, so a
/// query runs at most once.
pub struct Query<'q, DB: Backend, O = Row<DB>> {
    pub text: &'q str,
    pub parameters: DB::QueryParameters,
    pub output: PhantomData<O>,
}

/// The rows of a query as they come, each decoded into `O` when it is
/// pulled and not before.
pub struct Fetch<S, DB, O> {
    pub rows: S,
    pub output: PhantomData<O>,
    pub backend: PhantomData<DB>,
}

/// Starts a query from raw SQL: the text as given, no parameter bound, and
/// rows left as the backend returns them. The text is not looked at.
pub fn query<DB: Backend>(text: &str) -> (q: Query<'_, DB, Row<DB>>)
    ensures
        q@ == (Statement { text: text@, parameters: Seq::empty() }),
{
    Query { text, parameters: DB::QueryParameters::new(), output: PhantomData }
}

impl<'q, DB: Backend, O> Query<'q, DB, O> {
    /// What an executor is handed when this query runs.
    pub open spec fn view(&self) -> Statement {
        Statement { text: self.text@, parameters: self.parameters@ }
    }

    /// Binds `value` as the next parameter of the statement.
    ///
    /// Neither the number of parameters nor their types are held against
    /// the text: a mismatch shows only when the backend runs the statement.
    pub fn bind<T>(self, value: T) -> (q: Self)
        where
            DB: HasSqlType<T>,
            T: Encode<DB>,
        ensures
            q@ == self@.bound(value.encoded()),
    {
        let mut q = self;
        q.parameters.bind(value);
        q
    }

    /// Has the rows decoded into `U` from now on. Text and parameters are
    /// carried over as they are and nothing is computed.
    pub fn cast<U>(self) -> (q: Query<'q, DB, U>)
        where
            U: FromRow<DB>,
        ensures
            q@ == self@,
    {
        Query { text: self.text, parameters: self.parameters, output: PhantomData }
    }
}

impl<DB: Backend, S: RowStream<Item = DB::Row>, O: FromRow<DB>> RowStream for Fetch<S, DB, O> {
    type Item = O;

    /// The native items still to come, each decoded on its own.
    open spec fn pending(&self) -> Seq<Result<O, Error>> {
        each_decoded::<DB, O>(self.rows.pending())
    }

    /// Pulls one native item and decodes it. A failure, of the backend or
    /// of the decoder, is an item like any other and does not end the
    /// stream.
    fn next(&mut self) -> (item: Option<Result<O, Error>>) {
        let ghost before = self.rows.pending();
        proof {
            if before.len() > 0 {
                assert(each_decoded::<DB, O>(before).skip(1) =~= each_decoded::<DB, O>(
                    before.skip(1),
                ));
            }
        }
        match self.rows.next() {
            None => None,
            Some(item) => Some(decode_item::<DB, O>(item)),
        }
    }
}

impl<'q, DB: Backend, O: FromRow<DB>> Query<'q, DB, O> {
    /// Runs the statement and gives the number of rows it affected. No row
    /// is decoded.
    ///
    /// The outcome is the executor's answer to exactly this text and these
    /// parameters, handed on as it is.
    pub fn execute<E>(self, executor: &mut E) -> (outcome: Result<u64, Error>)
        where
            E: Executor<Backend = DB>,
        ensures
            old(executor).executes(self@, outcome, final(executor)),
    {
        executor.execute(self.text, self.parameters)
    }

    /// Runs the statement and gives its rows as a stream that decodes each
    /// one as it is pulled, in the order in which the backend emits them.
    ///
    /// The stream holds the executor's stream for exactly this text and
    /// these parameters. Nothing is pulled or decoded ahead of the caller.
    pub fn fetch<'e, E>(self, executor: &'e mut E) -> (fetched: Fetch<E::Rows<'e>, DB, O>)
        where
            E: Executor<Backend = DB>,
            'q: 'e,
        ensures
            old(executor).fetches(self@, fetched.rows.pending(), final(executor)),
            fetched.pending() == each_decoded::<DB, O>(fetched.rows.pending()),
    {
        Fetch {
            rows: executor.fetch(self.text, self.parameters),
            output: PhantomData,
            backend: PhantomData,
        }
    }

    /// Runs the statement and gives all its rows, decoded, in order.
    ///
    /// Fails with the backend's failure where the executor's answer is
    /// one, else with the error of the first row that does not decode.
    pub fn fetch_all<E>(self, executor: &mut E) -> (outcome: Result<Vec<O>, Error>)
        where
            E: Executor<Backend = DB>,
        ensures
            exists|items: Seq<Result<DB::Row, Error>>|
                #[trigger] old(executor).fetches(self@, items, final(executor))
                    && viewed(outcome) == fetched_all::<DB, O>(items),
    {
        // Names what is handed over before the query is taken apart.
        let ghost statement = self@;
        let found = executor.fetch_all(self.text, self.parameters);
        decode_all(found)
    }

    /// Runs the statement and gives its first row, decoded, or nothing
    /// where the backend returns no rows, which is no error. Rows after the
    /// first are discarded.
    pub fn fetch_optional<E>(self, executor: &mut E) -> (outcome: Result<Option<O>, Error>)
        where
            E: Executor<Backend = DB>,
        ensures
            exists|items: Seq<Result<DB::Row, Error>>|
                #[trigger] old(executor).fetches(self@, items, final(executor))
                    && outcome == fetched_optional::<DB, O>(items),
    {
        // Names what is handed over before the query is taken apart.
        let ghost statement = self@;
        let found = executor.fetch_optional(self.text, self.parameters);
        decode_optional(found)
    }

    /// Runs the statement and gives its first row, decoded. Fails with
    /// `Error::NotFound` where the backend returns no rows. Rows after the
    /// first are discarded.
    pub fn fetch_one<E>(self, executor: &mut E) -> (outcome: Result<O, Error>)
        where
            E: Executor<Backend = DB>,
        ensures
            exists|items: Seq<Result<DB::Row, Error>>|
                #[trigger] old(executor).fetches(self@, items, final(executor))
                    && outcome == fetched_one::<DB, O>(items),
    {
        // Names what is handed over before the query is taken apart.
        let ghost statement = self@;
        let found = executor.fetch_one(self.text, self.parameters);
        decode_item(found)
    }
}

/// What `fetch_all` makes of the items `items` that the backend emits:
/// their rows materialized and then decoded.
pub open spec fn fetched_all<DB: Backend, O: FromRow<DB>>(
    items: Seq<Result<DB::Row, Error>>,
) -> Result<Seq<O>, Error> {
    all_decoded::<DB, O>(collected(items))
}

/// What `fetch_optional` makes of the items `items` that the backend
/// emits: the first of them, if any, decoded.
pub open spec fn fetched_optional<DB: Backend, O: FromRow<DB>>(
    items: Seq<Result<DB::Row, Error>>,
) -> Result<Option<O>, Error> {
    optional_decoded::<DB, O>(first_of(items))
}

/// What `fetch_one` makes of the items `items` that the backend emits: the
/// first of them decoded, or `Error::NotFound` where there is none.
pub open spec fn fetched_one<DB: Backend, O: FromRow<DB>>(
    items: Seq<Result<DB::Row, Error>>,
) -> Result<O, Error> {
    item_decoded::<DB, O>(one_of(items))
}

/// `outcome` with what it holds on success replaced by its image under
/// `convert`; a failure stays the failure it is.
pub open spec fn converted<A, B>(outcome: Result<A, Error>, convert: spec_fn(A) -> B) -> Result<
    B,
    Error,
> {
    match outcome {
        Ok(value) => Ok(convert(value)),
        Err(e) => Err(e),
    }
}

/// `found` with the value it holds, if any, replaced by its image under
/// `convert`.
pub open spec fn found_converted<A, B>(found: Option<A>, convert: spec_fn(A) -> B) -> Option<B> {
    match found {
        Some(value) => Some(convert(value)),
        None => None,
    }
}

/// A backend that returns no rows: `fetch_optional` gives nothing, and
/// that is a success; `fetch_one` fails with `Error::NotFound`; `fetch_all`
/// gives no values. No decoder is asked.
pub proof fn lemma_no_rows<DB: Backend, O: FromRow<DB>>()
    ensures
        fetched_optional::<DB, O>(Seq::empty()) == Ok::<Option<O>, Error>(None),
        fetched_one::<DB, O>(Seq::empty()) == Err::<O, Error>(Error::NotFound),
        fetched_all::<DB, O>(Seq::empty()) == Ok::<Seq<O>, Error>(Seq::empty()),
{
}

/// A backend whose first item is the row `row`: `fetch_one` gives what
/// `row` decodes to, and `fetch_optional` the same as a value that is
/// there. However many items follow the first, they play no part.
pub proof fn lemma_first_row<DB: Backend, O: FromRow<DB>>(
    items: Seq<Result<DB::Row, Error>>,
    row: DB::Row,
)
    requires
        items.len() > 0,
        items[0] == Ok::<DB::Row, Error>(row),
    ensures
        fetched_one::<DB, O>(items) == O::decoded(row),
        fetched_optional::<DB, O>(items) == converted(O::decoded(row), |value: O| Some(value)),
{
}

/// A failure of the backend before any row is the outcome of `fetch_one`,
/// `fetch_optional` and `fetch_all` alike, unchanged.
pub proof fn lemma_first_failure<DB: Backend, O: FromRow<DB>>(
    items: Seq<Result<DB::Row, Error>>,
    failure: Error,
)
    requires
        items.len() > 0,
        items[0] == Err::<DB::Row, Error>(failure),
    ensures
        fetched_one::<DB, O>(items) == Err::<O, Error>(failure),
        fetched_optional::<DB, O>(items) == Err::<Option<O>, Error>(failure),
        fetched_all::<DB, O>(items) == Err::<Seq<O>, Error>(failure),
{
}

/// `fetch_optional` and `fetch_one` against the first pull of the stream of
/// `fetch`: whatever the backend emits, `fetch_optional` gives what that
/// pull gives, nothing for the end of the stream, and `fetch_one` the
/// same with nothing turned into `Error::NotFound`.
pub proof fn lemma_fetch_one_pulls_once<DB: Backend, O: FromRow<DB>>(
    items: Seq<Result<DB::Row, Error>>,
)
    ensures
        fetched_optional::<DB, O>(items) == first_of(each_decoded::<DB, O>(items)),
        fetched_one::<DB, O>(items) == one_of(each_decoded::<DB, O>(items)),
{
}

/// `fetch_all` against pulling the stream of `fetch` dry and materializing
/// what was pulled.
///
/// Where the backend emits rows and no failure, the two give the same:
/// every decoded value in order, or the error of the first row that does
/// not decode. Where the backend fails at some item, both fail.
pub proof fn lemma_fetch_all_exhausts_fetch<DB: Backend, O: FromRow<DB>>(
    items: Seq<Result<DB::Row, Error>>,
)
    ensures
        collected(items) is Ok ==> fetched_all::<DB, O>(items) == collected(
            each_decoded::<DB, O>(items),
        ),
        collected(items) is Err ==> fetched_all::<DB, O>(items) is Err && collected(
            each_decoded::<DB, O>(items),
        ) is Err,
    decreases items.len(),
{
    let each = each_decoded::<DB, O>(items);
    if items.len() == 0 {
        lemma_no_rows::<DB, O>();
    } else {
        let rest = items.skip(1);
        lemma_fetch_all_exhausts_fetch::<DB, O>(rest);
        assert(each.skip(1) =~= each_decoded::<DB, O>(rest));
        if let Ok(row) = items[0] {
            if let Ok(more) = collected(rest) {
                let rows = seq![row] + more;
                let values = rows.map_values(|row: DB::Row| O::decoded(row));
                assert(values.skip(1) =~= more.map_values(|row: DB::Row| O::decoded(row)));
            }
        }
    }
}

/// The rows `rows`, emitted without a failure, come out of `fetch_all` and
/// out of the exhausted stream of `fetch` as the same thing: what each row
/// decodes to, in the order of the rows. Where every row decodes, that is
/// the sequence of the decoded values, as long as `rows`.
pub proof fn lemma_fetch_all_of_rows<DB: Backend, O: FromRow<DB>>(rows: Seq<DB::Row>)
    ensures
        fetched_all::<DB, O>(emitted(rows)) == rows_decoded::<DB, O>(rows),
        collected(each_decoded::<DB, O>(emitted(rows))) == rows_decoded::<DB, O>(rows),
        (forall|i: int| 0 <= i < rows.len() ==> (#[trigger] O::decoded(rows[i])) is Ok)
            ==> rows_decoded::<DB, O>(rows) == Ok::<Seq<O>, Error>(
            rows.map_values(|row: DB::Row| O::decoded(row)->Ok_0),
        ),
{
    lemma_collected_emitted(rows);
    lemma_fetch_all_exhausts_fetch::<DB, O>(emitted(rows));
    let decodings = rows.map_values(|row: DB::Row| O::decoded(row));
    if forall|i: int| 0 <= i < rows.len() ==> (#[trigger] O::decoded(rows[i])) is Ok {
        let values = rows.map_values(|row: DB::Row| O::decoded(row)->Ok_0);
        assert(decodings =~= emitted(values));
        lemma_collected_emitted(values);
    }
}

/// Casting does not change what is decoded, only what it is decoded into.
///
/// Let `U` decode every row as `O` does, up to `convert`: where `O` gives a
/// value, `U` gives its image, and where `O` fails, `U` fails alike. Then
/// for whatever the backend emits, each operation on the cast query gives
/// the image of what it gives on the query before the cast: item by item
/// for `fetch`, value by value for `fetch_all`, and for the one value of
/// `fetch_optional` and `fetch_one`. With `U` the same as `O` and `convert`
/// the identity, the outcomes are the same.
pub proof fn lemma_cast_decodes_alike<DB: Backend, O: FromRow<DB>, U: FromRow<DB>>(
    items: Seq<Result<DB::Row, Error>>,
    convert: spec_fn(O) -> U,
)
    requires
        forall|row: DB::Row| #[trigger] U::decoded(row) == converted(O::decoded(row), convert),
    ensures
        each_decoded::<DB, U>(items) == each_decoded::<DB, O>(items).map_values(
            |item: Result<O, Error>| converted(item, convert),
        ),
        fetched_all::<DB, U>(items) == converted(
            fetched_all::<DB, O>(items),
            |values: Seq<O>| values.map_values(convert),
        ),
        fetched_optional::<DB, U>(items) == converted(
            fetched_optional::<DB, O>(items),
            |found: Option<O>| found_converted(found, convert),
        ),
        fetched_one::<DB, U>(items) == converted(fetched_one::<DB, O>(items), convert),
{
    assert(each_decoded::<DB, U>(items) =~= each_decoded::<DB, O>(items).map_values(
        |item: Result<O, Error>| converted(item, convert),
    ));
    if let Ok(rows) = collected(items) {
        lemma_rows_decoded_alike::<DB, O, U>(rows, convert);
    }
}

/// The part of `lemma_cast_decodes_alike` that speaks of materialized rows.
pub proof fn lemma_rows_decoded_alike<DB: Backend, O: FromRow<DB>, U: FromRow<DB>>(
    rows: Seq<DB::Row>,
    convert: spec_fn(O) -> U,
)
    requires
        forall|row: DB::Row| #[trigger] U::decoded(row) == converted(O::decoded(row), convert),
    ensures
        rows_decoded::<DB, U>(rows) == converted(
            rows_decoded::<DB, O>(rows),
            |values: Seq<O>| values.map_values(convert),
        ),
    decreases rows.len(),
{
    let before = rows.map_values(|row: DB::Row| O::decoded(row));
    let after = rows.map_values(|row: DB::Row| U::decoded(row));
    if rows.len() == 0 {
        assert(Seq::<O>::empty().map_values(convert) =~= Seq::<U>::empty());
    } else {
        let rest = rows.skip(1);
        lemma_rows_decoded_alike::<DB, O, U>(rest, convert);
        assert(before.skip(1) =~= rest.map_values(|row: DB::Row| O::decoded(row)));
        assert(after.skip(1) =~= rest.map_values(|row: DB::Row| U::decoded(row)));
        if let Ok(value) = before[0] {
            if let Ok(more) = collected(before.skip(1)) {
                assert((seq![value] + more).map_values(convert) =~= seq![convert(value)]
                    + more.map_values(convert));
            }
        }
    }
}

} // verus!
