//! Run SQLite statements through rusqlite and shape their rows into the
//! result that a query method declares: exactly one row, at most one row,
//! every row, a lazily read prepared query, or no rows at all.
//!
//! Rows are read through a [`RowCursor`], which keeps a record of every step
//! it takes and of the row handle it steps; the readers in [`read`] state
//! their results as functions of those steps, the `fetch_*` functions tie
//! the steps to the statement prepared from their SQL with their parameters
//! bound, and [`laws`] proves what holds of every sequence of steps.

pub mod sqlite;
pub mod error;
pub mod cursor;
pub mod read;
pub mod query;
pub mod dispatch;
pub mod connection;
pub mod columns;
pub mod laws;

pub use connection::ConnectionSource;
pub use cursor::{RowCursor, RowEvent};
pub use dispatch::{
    execute_statement, fetch_all, fetch_one, fetch_optional, prepare_query, FromRows,
    FromRowsCategory, Probe,
};
pub use error::QueryError;
pub use query::Query;
