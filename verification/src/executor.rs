//! The executor: what runs a statement and answers in native terms.

use vstd::prelude::*;
use crate::backend::Backend;
use crate::error::Error;
use crate::params::QueryParameters;
use crate::statement::Statement;
use crate::stream::{
    collect, collected, first, first_of, one_of, require_row, viewed, RowStream,
};

verus! {

/// Something that can run statements against a database of one backend.
///
/// Every operation takes the text and the bound parameters and answers in
/// the backend's own terms: a count, or native rows. Each borrows the
/// executor exclusively until its answer, or its stream, is dropped. What a
/// database answers is not for this crate to say; `executes` and `fetches`
/// are where an executor says it, and `true`, their default, leaves it open.
/// Retrying, pooling and transactions are the executor's own business.
///
/// An executor has to provide `execute` and `fetch`. The other three are
/// provided from `fetch`; an executor that has a shorter way to the same
/// answer may put its own in their place.
pub trait Executor {
    /// The backend whose parameters this executor takes and whose rows it
    /// returns.
    type Backend: Backend;

    /// The stream that `fetch` returns.
    type Rows<'e>: RowStream<Item = <Self::Backend as Backend>::Row> where Self: 'e;

    /// Whether this executor, as it stands, may answer `statement` with
    /// `outcome` when asked to execute it, and be left as `after`.
    open spec fn executes(
        &self,
        statement: Statement,
        outcome: Result<u64, Error>,
        after: &Self,
    ) -> bool {
        true
    }

    /// Whether this executor, as it stands, may answer `statement` with the
    /// items `items`, in that order, when asked for its rows, and be left as
    /// `after` once it is free again.
    open spec fn fetches(
        &self,
        statement: Statement,
        items: Seq<Result<<Self::Backend as Backend>::Row, Error>>,
        after: &Self,
    ) -> bool {
        true
    }

    /// Runs the statement and gives the number of rows it affected.
    fn execute(
        &mut self,
        text: &str,
        parameters: <Self::Backend as Backend>::QueryParameters,
    ) -> (outcome: Result<u64, Error>)
        ensures
            old(self).executes(
                (Statement { text: text@, parameters: parameters@ }),
                outcome,
                final(self),
            ),
    ;

    /// Runs the statement and gives its rows as a stream, in the order in
    /// which the backend emits them.
    fn fetch<'e, 'q: 'e>(
        &'e mut self,
        text: &'q str,
        parameters: <Self::Backend as Backend>::QueryParameters,
    ) -> (rows: Self::Rows<'e>)
        ensures
            old(self).fetches(
                (Statement { text: text@, parameters: parameters@ }),
                rows.pending(),
                final(self),
            ),
    ;

    /// Runs the statement and gives all its rows, in order. A failure among
    /// the items fails the whole: the first one is the answer.
    fn fetch_all(
        &mut self,
        text: &str,
        parameters: <Self::Backend as Backend>::QueryParameters,
    ) -> (outcome: Result<Vec<<Self::Backend as Backend>::Row>, Error>)
        ensures
            exists|items: Seq<Result<<Self::Backend as Backend>::Row, Error>>|
                #[trigger] old(self).fetches(
                    (Statement { text: text@, parameters: parameters@ }),
                    items,
                    final(self),
                )
                    && viewed(outcome) == collected(items),
    {
        collect(self.fetch(text, parameters))
    }

    /// Runs the statement and gives its first row, or nothing where it has
    /// no rows. Rows after the first are discarded.
    fn fetch_optional(
        &mut self,
        text: &str,
        parameters: <Self::Backend as Backend>::QueryParameters,
    ) -> (outcome: Result<Option<<Self::Backend as Backend>::Row>, Error>)
        ensures
            exists|items: Seq<Result<<Self::Backend as Backend>::Row, Error>>|
                #[trigger] old(self).fetches(
                    (Statement { text: text@, parameters: parameters@ }),
                    items,
                    final(self),
                )
                    && outcome == first_of(items),
    {
        first(self.fetch(text, parameters))
    }

    /// Runs the statement and gives its first row, or `Error::NotFound`
    /// where it has no rows. Rows after the first are discarded.
    fn fetch_one(
        &mut self,
        text: &str,
        parameters: <Self::Backend as Backend>::QueryParameters,
    ) -> (outcome: Result<<Self::Backend as Backend>::Row, Error>)
        ensures
            exists|items: Seq<Result<<Self::Backend as Backend>::Row, Error>>|
                #[trigger] old(self).fetches(
                    (Statement { text: text@, parameters: parameters@ }),
                    items,
                    final(self),
                )
                    && outcome == one_of(items),
    {
        require_row(self.fetch_optional(text, parameters))
    }
}

} // verus!
