//! A typed SQL statement: its text, the parameters bound to it and the shape
//! its rows are decoded into, built once and run against any executor of its
//! backend.

pub mod backend;
pub mod encode;
pub mod error;
pub mod executor;
pub mod params;
pub mod query;
pub mod row;
pub mod statement;
pub mod stream;

pub use backend::{Backend, HasSqlType};
pub use encode::Encode;
pub use error::Error;
pub use executor::Executor;
pub use params::QueryParameters;
pub use query::{query, Fetch, Query};
pub use row::{decode_all, decode_item, decode_optional, FromRow, Row};
pub use statement::Statement;
pub use stream::{collect, first, gather, require_row, take_first, Collecting, RowStream};
