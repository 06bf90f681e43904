//! The rusqlite types that the library carries, and the calls it makes into
//! rusqlite. Every item here is trusted: its contract is read from the
//! rusqlite source, not proved.

use vstd::prelude::*;

verus! {

/// An open SQLite database handle (`rusqlite::Connection`), carried opaquely.
#[verifier::external_type_specification]
#[verifier::external_body]
pub struct ExConnection(rusqlite::Connection);

/// A transaction on a connection (`rusqlite::Transaction`), carried opaquely.
#[verifier::external_type_specification]
#[verifier::external_body]
pub struct ExTransaction<'conn>(rusqlite::Transaction<'conn>);

/// A prepared statement (`rusqlite::Statement`), carried opaquely.
#[verifier::external_type_specification]
#[verifier::external_body]
pub struct ExStatement<'conn>(rusqlite::Statement<'conn>);

/// The streaming result handle of an executing statement (`rusqlite::Rows`).
#[verifier::external_type_specification]
#[verifier::external_body]
pub struct ExRows<'stmt>(rusqlite::Rows<'stmt>);

/// One result row (`rusqlite::Row`), valid until the next step.
#[verifier::external_type_specification]
#[verifier::external_body]
pub struct ExRow<'stmt>(rusqlite::Row<'stmt>);

/// rusqlite's error type (`rusqlite::Error`), carried opaquely.
#[verifier::external_type_specification]
#[verifier::external_body]
pub struct ExError(rusqlite::Error);

/// Calls `rusqlite::Connection::prepare`. Whether the SQL compiles depends on
/// the database schema, so nothing is promised of the result.
#[verifier::external_body]
pub(crate) fn prepare<'conn>(
    connection: &'conn rusqlite::Connection,
    sql: &str,
) -> (res: Result<rusqlite::Statement<'conn>, rusqlite::Error>) {
    connection.prepare(sql)
}

/// Calls `rusqlite::Statement::query`: binds `params` in order and returns a
/// row handle without stepping the statement. Whether binding succeeds
/// depends on the parameters' `ToSql` impls and the statement, so nothing is
/// promised of the result. The statement handle itself is left as it was:
/// binding writes the values into SQLite's statement object behind the
/// handle, and no field of `rusqlite::Statement` is assigned.
#[verifier::external_body]
pub(crate) fn query<'stmt, 'conn: 'stmt, P: rusqlite::Params>(
    statement: &'stmt mut rusqlite::Statement<'conn>,
    params: P,
) -> (res: Result<rusqlite::Rows<'stmt>, rusqlite::Error>)
    ensures
        *final(statement) == *old(statement),
{
    statement.query(params)
}

/// Calls `rusqlite::Statement::raw_query`: a row handle over the parameters
/// already bound, without stepping. It cannot fail, and it leaves the
/// statement handle as it was (the row handle only borrows it).
#[verifier::external_body]
pub(crate) fn raw_query<'stmt, 'conn: 'stmt>(
    statement: &'stmt mut rusqlite::Statement<'conn>,
) -> (res: rusqlite::Rows<'stmt>)
    ensures
        *final(statement) == *old(statement),
{
    statement.raw_query()
}

/// Calls `rusqlite::Rows::next` on `rows` once and hands the row that comes,
/// if one does, to `decode`; returns the handle with what the step gave:
/// `Ok(Some(d))` with what `decode` returned for the row, `Ok(None)` at the
/// end, `Err` for a failed step. Which one comes depends on the database;
/// what is promised is only that a decoded outcome is one that `decode`
/// returned for a row.
#[verifier::external_body]
pub(crate) fn step_decoded<'stmt, T, F: Fn(&rusqlite::Row<'_>) -> Result<T, rusqlite::Error>>(
    rows: rusqlite::Rows<'stmt>,
    decode: &F,
) -> (res: (rusqlite::Rows<'stmt>, Result<Option<Result<T, rusqlite::Error>>, rusqlite::Error>))
    requires
        forall|row: &rusqlite::Row<'_>| decode.requires((row,)),
    ensures
        res.1 matches Ok(Some(d)) ==> exists|row: &rusqlite::Row<'_>| #[trigger] decode.ensures((row,), d),
{
    let mut rows = rows;
    let step = rows.next().map(|found| found.map(decode));
    (rows, step)
}

/// Calls `rusqlite::Rows::next` on `rows` once without looking at the row;
/// returns the handle with what the step gave: `Ok(true)` for a row,
/// `Ok(false)` at the end, `Err` for a failed step. Which one comes depends
/// on the database, so nothing is promised of it.
#[verifier::external_body]
pub(crate) fn step_skipped<'stmt>(
    rows: rusqlite::Rows<'stmt>,
) -> (res: (rusqlite::Rows<'stmt>, Result<bool, rusqlite::Error>)) {
    let mut rows = rows;
    let step = rows.next().map(|found| found.is_some());
    (rows, step)
}

/// Calls `rusqlite::Row::get` for the column at position `index`, converting
/// it with `A`'s `FromSql` impl. The result depends on the stored value, so
/// nothing is promised of it.
#[verifier::external_body]
pub(crate) fn column<A: rusqlite::types::FromSql>(
    row: &rusqlite::Row<'_>,
    index: usize,
) -> (res: Result<A, rusqlite::Error>) {
    row.get(index)
}

/// Calls `rusqlite::Connection::execute`: prepares `sql`, binds `params` and
/// runs the statement to completion, returning the number of changed rows.
/// The outcome depends on the database, so nothing is promised of it.
#[verifier::external_body]
pub(crate) fn execute<P: rusqlite::Params>(
    connection: &rusqlite::Connection,
    sql: &str,
    params: P,
) -> (res: Result<usize, rusqlite::Error>) {
    connection.execute(sql, params)
}

/// Dereferences a `rusqlite::Transaction` to the connection it runs on
/// (rusqlite's `Deref` impl). The connection is opaque, so nothing is stated
/// of which one comes back.
#[verifier::external_body]
pub(crate) fn transaction_connection<'a>(
    transaction: &'a rusqlite::Transaction<'_>,
) -> (res: &'a rusqlite::Connection) {
    transaction
}

} // verus!
