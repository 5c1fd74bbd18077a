//! The container of bound parameters.

use vstd::prelude::*;
use crate::backend::HasSqlType;
use crate::encode::Encode;

verus! {

/// The backend-native container of the values bound to one query.
///
/// Whatever its layout, a container stands for the sequence of the encoded
/// values bound so far, in the order in which they were bound. It only ever
/// grows at its end, so a value's position is the position of the
/// placeholder it fills.
pub trait QueryParameters<DB>: Sized {
    /// The encoded values held, first bound first.
    spec fn view(&self) -> Seq<Seq<u8>>;

    /// A container that holds nothing.
    fn new() -> (parameters: Self)
        ensures
            parameters@ == Seq::<Seq<u8>>::empty(),
    ;

    /// Appends the encoding of `value` as the next parameter. Nothing is
    /// checked against any statement text.
    fn bind<T>(&mut self, value: T)
        where
            DB: HasSqlType<T>,
            T: Encode<DB>,
        ensures
            final(self)@ == old(self)@.push(value.encoded()),
    ;
}

} // verus!
