//! The errors that the library reports.

use vstd::prelude::*;

verus! {

/// Why a query method failed.
///
/// The two cardinality variants are the library's own verdicts on how many
/// rows a statement produced; every other failure is rusqlite's error,
/// carried unchanged, including the errors that a row decoder returns.
#[derive(Debug)]
pub enum QueryError {
    /// A statement that had to produce a row produced none.
    QueryReturnedNoRows,
    /// A statement that could produce at most one row produced more.
    QueryReturnedMoreThanOneRow,
    /// An error reported by rusqlite or by a row decoder.
    Sqlite(rusqlite::Error),
}

impl QueryError {
    /// Whether this is one of the two cardinality verdicts.
    pub open spec fn is_cardinality(self) -> bool {
        self is QueryReturnedNoRows || self is QueryReturnedMoreThanOneRow
    }
}

} // verus!
