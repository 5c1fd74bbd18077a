//! The backend: the native types a query is written against.

use vstd::prelude::*;
use crate::params::QueryParameters;

verus! {

/// One database engine family.
///
/// A backend fixes the two native representations everything else is
/// written against: the container its bound parameters accumulate in and the
/// row it hands back. A query is tied to exactly one backend by its type.
pub trait Backend: Sized {
    /// The container that bound parameters are appended to.
    type QueryParameters: QueryParameters<Self>;

    /// One row as the backend returns it, before any decoding.
    type Row;
}

/// Marks that the backend has an SQL type for values of type `T`.
///
/// Only such values can be bound to a query for this backend. The pairing
/// is a matter of types alone: there is no registry to consult at run time
/// and no silent coercion.
pub trait HasSqlType<T> {
}

} // verus!
