//! Streams of rows, and the rules for taking one row or all of them.

use vstd::prelude::*;
use crate::error::Error;

verus! {

/// A sequence of results that is pulled one item at a time.
///
/// Each item is a row of its own or a failure of its own: a failure does
/// not end the sequence, and whoever pulls decides whether to go on. A
/// stream cannot be rewound, and it ends: `pending` is the whole of what it
/// will still yield.
pub trait RowStream {
    /// What a successful item holds.
    type Item;

    /// The items still to come, next first.
    spec fn pending(&self) -> Seq<Result<Self::Item, Error>>;

    /// Takes the next item, or `None` once the stream is exhausted.
    fn next(&mut self) -> (item: Option<Result<Self::Item, Error>>)
        ensures
            item == first_item(old(self).pending()),
            final(self).pending() == later_items(old(self).pending()),
    ;
}

/// The first item of `items`, if there is one.
pub open spec fn first_item<T>(items: Seq<Result<T, Error>>) -> Option<Result<T, Error>> {
    if items.len() == 0 {
        None
    } else {
        Some(items[0])
    }
}

/// What is left of `items` once its first item is taken; an empty sequence
/// stays empty.
pub open spec fn later_items<T>(items: Seq<Result<T, Error>>) -> Seq<Result<T, Error>> {
    if items.len() == 0 {
        items
    } else {
        items.skip(1)
    }
}

/// What materializing `items` gives: every row in order, unless some item
/// is a failure, in which case the first failure.
pub open spec fn collected<T>(items: Seq<Result<T, Error>>) -> Result<Seq<T>, Error>
    decreases items.len(),
{
    if items.len() == 0 {
        Ok(Seq::empty())
    } else {
        match items[0] {
            Err(e) => Err(e),
            Ok(row) => preceded(seq![row], collected(items.skip(1))),
        }
    }
}

/// `rest` with `rows` put in front of what it holds; a failure stays as it
/// is.
pub open spec fn preceded<T>(rows: Seq<T>, rest: Result<Seq<T>, Error>) -> Result<Seq<T>, Error> {
    match rest {
        Ok(more) => Ok(rows + more),
        Err(e) => Err(e),
    }
}

/// What the first pull of a stream amounts to when at most one row is
/// asked for: nothing where the stream had ended, else the row or the
/// failure pulled.
pub open spec fn first_taken<T>(pulled: Option<Result<T, Error>>) -> Result<Option<T>, Error> {
    match pulled {
        None => Ok(None),
        Some(Ok(row)) => Ok(Some(row)),
        Some(Err(e)) => Err(e),
    }
}

/// What asking `items` for at most one row gives: nothing where there is
/// no item, else the first item, whatever follows it.
pub open spec fn first_of<T>(items: Seq<Result<T, Error>>) -> Result<Option<T>, Error> {
    first_taken(first_item(items))
}

/// What asking for exactly one row gives once at most one was looked for:
/// the row found, or `Error::NotFound` where none was.
pub open spec fn required<T>(found: Result<Option<T>, Error>) -> Result<T, Error> {
    match found {
        Ok(Some(row)) => Ok(row),
        Ok(None) => Err(Error::NotFound),
        Err(e) => Err(e),
    }
}

/// What asking `items` for exactly one row gives: `Error::NotFound` where
/// there is no item, else the first item, whatever follows it.
pub open spec fn one_of<T>(items: Seq<Result<T, Error>>) -> Result<T, Error> {
    required(first_of(items))
}

/// A result that holds a vector, as the result that holds the vector's
/// elements.
pub open spec fn viewed<T>(outcome: Result<Vec<T>, Error>) -> Result<Seq<T>, Error> {
    match outcome {
        Ok(rows) => Ok(rows@),
        Err(e) => Err(e),
    }
}

/// Where materializing a stream stands after one more pull.
pub enum Collecting<T> {
    /// The pull gave a row: the rows so far, that row last. More is to be
    /// pulled.
    More(Vec<T>),
    /// The pull gave the end of the stream or a failure: the outcome.
    /// Nothing more is to be pulled.
    Done(Result<Vec<T>, Error>),
}

/// One step of materializing a stream: what `pulled`, the next thing
/// pulled, makes of `rows`, the rows before it. A row is put behind them,
/// the end of the stream makes them the outcome, and a failure is the
/// outcome in their place.
pub fn gather<T>(rows: Vec<T>, pulled: Option<Result<T, Error>>) -> (step: Collecting<T>)
    ensures
        match pulled {
            Some(Ok(row)) => step matches Collecting::More(more) && more@ == rows@.push(row),
            Some(Err(e)) => step == Collecting::<T>::Done(Err(e)),
            None => step == Collecting::Done(Ok::<Vec<T>, Error>(rows)),
        },
{
    match pulled {
        Some(Ok(row)) => {
            let mut more = rows;
            more.push(row);
            Collecting::More(more)
        },
        Some(Err(e)) => Collecting::Done(Err(e)),
        None => Collecting::Done(Ok(rows)),
    }
}

/// Pulls `stream` until it is exhausted or yields a failure, and
/// materializes the rows pulled, in order. The first failure ends the pull
/// and is the result; what would have followed it is dropped with the
/// stream.
pub fn collect<S: RowStream>(stream: S) -> (outcome: Result<Vec<S::Item>, Error>)
    ensures
        viewed(outcome) == collected(stream.pending()),
{
    let mut source = stream;
    let mut rows: Vec<S::Item> = Vec::new();
    loop
        invariant
            collected(stream.pending()) == preceded(rows@, collected(source.pending())),
        decreases source.pending().len(),
    {
        let ghost before = source.pending();
        let ghost so_far = rows@;
        match gather(rows, source.next()) {
            Collecting::More(more) => {
                proof {
                    if let Ok(rest) = collected(before.skip(1)) {
                        assert(so_far + (seq![more@.last()] + rest) =~= more@ + rest);
                    }
                }
                rows = more;
            },
            Collecting::Done(outcome) => {
                return outcome;
            },
        }
    }
}

/// What the first pull of a stream amounts to when at most one row is
/// asked for. Whatever the stream has after it is not pulled.
pub fn take_first<T>(pulled: Option<Result<T, Error>>) -> (outcome: Result<Option<T>, Error>)
    ensures
        outcome == first_taken(pulled),
{
    match pulled {
        None => Ok(None),
        Some(Ok(row)) => Ok(Some(row)),
        Some(Err(e)) => Err(e),
    }
}

/// Pulls the first item of `stream` and no more: the row it holds, nothing
/// where the stream is empty, or the failure it holds. Whatever the stream
/// had after its first item is dropped with it.
pub fn first<S: RowStream>(stream: S) -> (outcome: Result<Option<S::Item>, Error>)
    ensures
        outcome == first_of(stream.pending()),
{
    let mut source = stream;
    take_first(source.next())
}

/// Turns "at most one row" into "exactly one row": finding none becomes
/// `Error::NotFound`.
pub fn require_row<T>(found: Result<Option<T>, Error>) -> (outcome: Result<T, Error>)
    ensures
        outcome == required(found),
{
    match found {
        Ok(Some(row)) => Ok(row),
        Ok(None) => Err(Error::NotFound),
        Err(e) => Err(e),
    }
}

/// `rows` as a backend emits them when nothing fails: each an item of its
/// own, in order.
pub open spec fn emitted<T>(rows: Seq<T>) -> Seq<Result<T, Error>> {
    rows.map_values(|row: T| Ok::<T, Error>(row))
}

/// Materializing succeeds exactly where no item is a failure, and then
/// gives the rows of the items, one for one and in their order. Where it
/// fails, it fails with the first failure among the items.
pub proof fn lemma_collected<T>(items: Seq<Result<T, Error>>)
    ensures
        match collected(items) {
            Ok(rows) => items == emitted(rows),
            Err(e) => exists|k: int|
                0 <= k < items.len() && #[trigger] items[k] == Err::<T, Error>(e) && forall|j: int|
                    0 <= j < k ==> (#[trigger] items[j]) is Ok,
        },
    decreases items.len(),
{
    if items.len() > 0 {
        let rest = items.skip(1);
        lemma_collected(rest);
        if let Ok(row) = items[0] {
            match collected(rest) {
                Ok(more) => {
                    assert forall|i: int| 0 <= i < items.len() implies items[i] == emitted(
                        seq![row] + more,
                    )[i] by {
                        if i > 0 {
                            assert(items[i] == rest[i - 1]);
                        }
                    }
                },
                Err(e) => {
                    let k = choose|k: int|
                        0 <= k < rest.len() && #[trigger] rest[k] == Err::<T, Error>(e)
                            && forall|j: int| 0 <= j < k ==> (#[trigger] rest[j]) is Ok;
                    assert forall|j: int| 0 <= j < k + 1 implies (#[trigger] items[j]) is Ok by {
                        if j > 0 {
                            assert(items[j] == rest[j - 1]);
                        }
                    }
                },
            }
        }
    }
}

/// Rows emitted without a failure materialize to themselves.
pub proof fn lemma_collected_emitted<T>(rows: Seq<T>)
    ensures
        collected(emitted(rows)) == Ok::<Seq<T>, Error>(rows),
{
    let items = emitted(rows);
    lemma_collected(items);
    if let Ok(found) = collected(items) {
        assert forall|i: int| 0 <= i < rows.len() implies found[i] == rows[i] by {
            assert(emitted(found)[i] == emitted(rows)[i]);
        }
        assert(found =~= rows);
    }
}

} // verus!
