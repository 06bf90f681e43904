//! A prepared statement with bound parameters whose rows are read lazily.

use vstd::prelude::*;
use std::marker::PhantomData;
use crate::cursor::RowCursor;
use crate::sqlite;

verus! {

/// A prepared query with bound parameters whose rows, of type `T`, are read
/// lazily.
///
/// Preparing it binds the parameters without executing the statement. Each
/// call to [`iter`](Self::iter) starts a new execution with the same bound
/// values.
pub struct Query<'conn, T> {
    statement: rusqlite::Statement<'conn>,
    prepared: Ghost<rusqlite::Statement<'conn>>,
    row_type: PhantomData<T>,
}

/// Starting `statement` through rusqlite's `Statement::raw_query`, with the
/// parameters already bound, can give the row handle `rows`.
pub closed spec fn raw_gives<'stmt, 'conn>(
    statement: rusqlite::Statement<'conn>,
    rows: rusqlite::Rows<'stmt>,
) -> bool {
    exists|handle: &'stmt mut rusqlite::Statement<'conn>|
        *handle == statement && #[trigger] call_ensures(sqlite::raw_query::<'stmt, 'conn>, (handle,), rows)
}

impl<'conn, T> Query<'conn, T> {
    /// The statement that the query runs, with its parameters bound.
    pub closed spec fn statement(&self) -> rusqlite::Statement<'conn> {
        self.statement
    }

    /// The statement as preparing the SQL gave it, before any parameter was
    /// bound.
    pub closed spec fn prepared(&self) -> rusqlite::Statement<'conn> {
        self.prepared@
    }

    /// A query over `statement`, whose parameters are already bound, and
    /// which preparing the SQL gave as `prepared`.
    pub(crate) fn from_bound(
        statement: rusqlite::Statement<'conn>,
        prepared: Ghost<rusqlite::Statement<'conn>>,
    ) -> (query: Self)
        ensures
            query.statement() == statement,
            query.prepared() == prepared@,
    {
        Query { statement, prepared, row_type: PhantomData }
    }

    /// Starts executing the statement anew and returns a cursor over its
    /// rows, to be decoded with decoders of type `F`. No step is taken until
    /// the cursor is advanced.
    pub fn iter<F: Fn(&rusqlite::Row<'_>) -> Result<T, rusqlite::Error>>(&mut self) -> (rows: RowCursor<'_, T, F>)
        ensures
            rows.events() == Seq::<crate::cursor::RowEvent<T>>::empty(),
            rows.traced(),
            raw_gives(old(self).statement(), rows.origin()),
            final(self).statement() == old(self).statement(),
            final(self).prepared() == old(self).prepared(),
    {
        let ghost before = self.statement;
        let rows = sqlite::raw_query(&mut self.statement);
        assert(raw_gives(before, rows));
        RowCursor::new(rows)
    }
}

} // verus!
