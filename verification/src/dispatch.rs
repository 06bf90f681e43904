//! Which way of reading rows a declared return type selects, and the reads
//! themselves.

use vstd::prelude::*;
use std::marker::PhantomData;
use crate::cursor::{decoder_returned, rows_give, RowCursor, RowEvent};
use crate::error::QueryError;
use crate::query::Query;
use crate::read::{
    all_result, all_steps, optional_result, optional_steps, read_all, read_optional,
    read_single, single_result, single_steps,
};
use crate::sqlite;

verus! {

/// The fallback for [`FromRowsCategory`]: any type that has no category of
/// its own is a single row, category `0`.
pub trait Probe {
    const VALUE: u8 = 0;
}

/// Maps a declared return type to the category of [`FromRows`] that reads
/// it. Its inherent `VALUE` constants take precedence over the [`Probe`]
/// fallback: `Option<T>` is `1`, `Vec<T>` is `2`, `Query<'_, T>` is `3` and
/// `()` is `4`; every other type is `0`.
pub struct FromRowsCategory<T>(PhantomData<T>);

impl<T> Probe for FromRowsCategory<T> {}

impl<T> FromRowsCategory<Option<T>> {
    pub const VALUE: u8 = 1;
}

impl<T> FromRowsCategory<Vec<T>> {
    pub const VALUE: u8 = 2;
}

impl<'conn, T> FromRowsCategory<Query<'conn, T>> {
    pub const VALUE: u8 = 3;
}

impl FromRowsCategory<()> {
    pub const VALUE: u8 = 4;
}

/// Runs a statement and shapes its rows into `Self`; `CATEGORY` selects how
/// (see [`FromRowsCategory`]). Rows are decoded with `decode`.
pub trait FromRows<'conn, const CATEGORY: u8>: Sized {
    /// What one row decodes to.
    type RowValue;

    /// Whether `res` is a result that reading a statement's rows as `Self`
    /// can give, where `prepared` holds of what preparing the SQL can give,
    /// `bound` of what binding the parameters to a prepared statement can
    /// give, `stepping` of the steps that stepping a row handle can observe,
    /// `decoded` of the values that the row decoder can return and
    /// `executed` of what rusqlite's `execute` can give for the SQL and its
    /// parameters.
    spec fn delivers(
        prepared: spec_fn(Result<rusqlite::Statement<'conn>, rusqlite::Error>) -> bool,
        bound: spec_fn(rusqlite::Statement<'conn>, Result<rusqlite::Rows<'conn>, rusqlite::Error>) -> bool,
        stepping: spec_fn(rusqlite::Rows<'conn>, Seq<RowEvent<Self::RowValue>>) -> bool,
        decoded: spec_fn(Self::RowValue) -> bool,
        executed: spec_fn(Result<usize, rusqlite::Error>) -> bool,
        res: Result<Self, QueryError>,
    ) -> bool;

    fn from_rows<P: rusqlite::Params, F: Fn(&rusqlite::Row<'_>) -> Result<Self::RowValue, rusqlite::Error>>(
        connection: &'conn rusqlite::Connection,
        sql: &str,
        params: P,
        decode: F,
    ) -> (res: Result<Self, QueryError>)
        requires
            forall|row: &rusqlite::Row<'_>| decode.requires((row,)),
        ensures
            Self::delivers(
                preparing(connection, sql),
                binding(params),
                stepping::<Self::RowValue, F>(),
                decoding(decode),
                executing(connection, sql, params),
                res,
            ),
    ;
}

/// Preparing `sql` on `connection` through rusqlite's
/// `Connection::prepare` can give `result`: some such call gave it.
pub closed spec fn prepare_gives<'conn>(
    connection: &'conn rusqlite::Connection,
    sql: &str,
    result: Result<rusqlite::Statement<'conn>, rusqlite::Error>,
) -> bool {
    call_ensures(sqlite::prepare, (connection, sql), result)
}

/// Binding `params` to the prepared `statement` through rusqlite's
/// `Statement::query` can give `result`: the statement's row handle, not
/// yet stepped, or the binding's error.
pub closed spec fn bind_gives<'stmt, 'conn, P: rusqlite::Params>(
    statement: rusqlite::Statement<'conn>,
    params: P,
    result: Result<rusqlite::Rows<'stmt>, rusqlite::Error>,
) -> bool {
    exists|handle: &'stmt mut rusqlite::Statement<'conn>|
        *handle == statement && #[trigger] call_ensures(sqlite::query::<'stmt, 'conn, P>, (handle, params), result)
}

/// Running `sql` with `params` on `connection` through rusqlite's
/// `Connection::execute` can give `result`: some such call gave it.
pub closed spec fn execute_gives<P: rusqlite::Params>(
    connection: &rusqlite::Connection,
    sql: &str,
    params: P,
    result: Result<usize, rusqlite::Error>,
) -> bool {
    call_ensures(sqlite::execute::<P>, (connection, sql, params), result)
}

/// Opening a statement can give `opened`: the error of preparing it, or,
/// after it prepared, what binding its parameters gave (its row handle or
/// the binding's error).
pub open spec fn opened_by<'conn>(
    prepared: spec_fn(Result<rusqlite::Statement<'conn>, rusqlite::Error>) -> bool,
    bound: spec_fn(rusqlite::Statement<'conn>, Result<rusqlite::Rows<'conn>, rusqlite::Error>) -> bool,
    opened: Result<rusqlite::Rows<'conn>, rusqlite::Error>,
) -> bool {
    ||| (opened matches Err(e) && prepared(Err::<rusqlite::Statement<'conn>, rusqlite::Error>(e)))
    ||| exists|statement: rusqlite::Statement<'conn>|
        #[trigger] prepared(Ok::<rusqlite::Statement<'conn>, rusqlite::Error>(statement)) && bound(statement, opened)
}

/// What a read of exactly one row can give: the error of opening the
/// statement, or the verdict of a one-row read over steps that stepping the
/// opened statement observed; a value is one of which `decoded` holds.
pub open spec fn one_row_outcome<'conn, T>(
    prepared: spec_fn(Result<rusqlite::Statement<'conn>, rusqlite::Error>) -> bool,
    bound: spec_fn(rusqlite::Statement<'conn>, Result<rusqlite::Rows<'conn>, rusqlite::Error>) -> bool,
    stepping: spec_fn(rusqlite::Rows<'conn>, Seq<RowEvent<T>>) -> bool,
    decoded: spec_fn(T) -> bool,
    res: Result<T, QueryError>,
) -> bool {
    &&& res matches Ok(v) ==> decoded(v)
    &&& exists|opened: Result<rusqlite::Rows<'conn>, rusqlite::Error>|
        #[trigger] opened_by(prepared, bound, opened) && match opened {
            Err(e) => res == Err::<T, QueryError>(QueryError::Sqlite(e)),
            Ok(rows) => exists|steps: Seq<RowEvent<T>>|
                #[trigger] stepping(rows, steps) && single_steps(steps) && res == single_result(steps),
        }
}

/// What a read of at most one row can give: never `QueryReturnedNoRows`;
/// the error of opening the statement, or the verdict of such a read over
/// steps that stepping the opened statement observed; a value is one of
/// which `decoded` holds.
pub open spec fn optional_row_outcome<'conn, T>(
    prepared: spec_fn(Result<rusqlite::Statement<'conn>, rusqlite::Error>) -> bool,
    bound: spec_fn(rusqlite::Statement<'conn>, Result<rusqlite::Rows<'conn>, rusqlite::Error>) -> bool,
    stepping: spec_fn(rusqlite::Rows<'conn>, Seq<RowEvent<T>>) -> bool,
    decoded: spec_fn(T) -> bool,
    res: Result<Option<T>, QueryError>,
) -> bool {
    &&& !(res matches Err(QueryError::QueryReturnedNoRows))
    &&& res matches Ok(Some(v)) ==> decoded(v)
    &&& exists|opened: Result<rusqlite::Rows<'conn>, rusqlite::Error>|
        #[trigger] opened_by(prepared, bound, opened) && match opened {
            Err(e) => res == Err::<Option<T>, QueryError>(QueryError::Sqlite(e)),
            Ok(rows) => exists|steps: Seq<RowEvent<T>>|
                #[trigger] stepping(rows, steps) && optional_steps(steps) && res == optional_result(steps),
        }
}

/// What a read of every row can give: only rusqlite's errors; the error of
/// opening the statement, or the verdict of a read of every row over steps
/// that stepping the opened statement observed; every value is one of which
/// `decoded` holds.
pub open spec fn all_rows_outcome<'conn, T>(
    prepared: spec_fn(Result<rusqlite::Statement<'conn>, rusqlite::Error>) -> bool,
    bound: spec_fn(rusqlite::Statement<'conn>, Result<rusqlite::Rows<'conn>, rusqlite::Error>) -> bool,
    stepping: spec_fn(rusqlite::Rows<'conn>, Seq<RowEvent<T>>) -> bool,
    decoded: spec_fn(T) -> bool,
    res: Result<Vec<T>, QueryError>,
) -> bool {
    &&& res matches Err(e) ==> e is Sqlite
    &&& res matches Ok(values) ==> forall|i: int| 0 <= i < values.len() ==> decoded(#[trigger] values@[i])
    &&& exists|opened: Result<rusqlite::Rows<'conn>, rusqlite::Error>|
        #[trigger] opened_by(prepared, bound, opened) && match opened {
            Err(e) => res matches Err(f) && f == QueryError::Sqlite(e),
            Ok(rows) => exists|steps: Seq<RowEvent<T>>|
                #[trigger] stepping(rows, steps) && all_steps(steps) && match res {
                    Ok(values) => all_result(steps) == Ok::<Seq<T>, QueryError>(values@),
                    Err(e) => all_result(steps) == Err::<Seq<T>, QueryError>(e),
                },
        }
}

/// What preparing a query can give: a query that holds the very statement
/// that preparing gave and to which the parameters then bound, unchanged by
/// binding; or the error of preparing or, after the SQL prepared, of
/// binding the parameters.
pub open spec fn prepared_outcome<'conn, T>(
    prepared: spec_fn(Result<rusqlite::Statement<'conn>, rusqlite::Error>) -> bool,
    bound: spec_fn(rusqlite::Statement<'conn>, Result<rusqlite::Rows<'conn>, rusqlite::Error>) -> bool,
    res: Result<Query<'conn, T>, QueryError>,
) -> bool {
    match res {
        Ok(query) => {
            &&& query.statement() == query.prepared()
            &&& prepared(Ok::<rusqlite::Statement<'conn>, rusqlite::Error>(query.prepared()))
            &&& exists|rows: rusqlite::Rows<'conn>|
                #[trigger] bound(query.prepared(), Ok::<rusqlite::Rows<'conn>, rusqlite::Error>(rows))
        },
        Err(QueryError::Sqlite(e)) => {
            ||| prepared(Err::<rusqlite::Statement<'conn>, rusqlite::Error>(e))
            ||| exists|statement: rusqlite::Statement<'conn>|
                #[trigger] prepared(Ok::<rusqlite::Statement<'conn>, rusqlite::Error>(statement))
                    && bound(statement, Err::<rusqlite::Rows<'conn>, rusqlite::Error>(e))
        },
        Err(_) => false,
    }
}

/// What running a statement without rows can give: `()` when `executed`
/// holds of some count of changed rows, an error `e` when it holds of
/// `Err(e)`.
pub open spec fn executed_outcome(
    executed: spec_fn(Result<usize, rusqlite::Error>) -> bool,
    res: Result<(), QueryError>,
) -> bool {
    match res {
        Ok(()) => exists|changed: usize| #[trigger] executed(Ok::<usize, rusqlite::Error>(changed)),
        Err(QueryError::Sqlite(e)) => executed(Err::<usize, rusqlite::Error>(e)),
        Err(_) => false,
    }
}

/// What preparing `sql` on `connection` can give.
pub open spec fn preparing<'conn>(
    connection: &'conn rusqlite::Connection,
    sql: &str,
) -> spec_fn(Result<rusqlite::Statement<'conn>, rusqlite::Error>) -> bool {
    |result: Result<rusqlite::Statement<'conn>, rusqlite::Error>| prepare_gives(connection, sql, result)
}

/// What binding `params` to a prepared statement can give.
pub open spec fn binding<'conn, P: rusqlite::Params>(
    params: P,
) -> spec_fn(rusqlite::Statement<'conn>, Result<rusqlite::Rows<'conn>, rusqlite::Error>) -> bool {
    |statement: rusqlite::Statement<'conn>, result: Result<rusqlite::Rows<'conn>, rusqlite::Error>|
        bind_gives(statement, params, result)
}

/// What stepping a row handle, decoding with decoders of type `F`, can
/// observe.
pub open spec fn stepping<'conn, T, F: Fn(&rusqlite::Row<'_>) -> Result<T, rusqlite::Error>>(
) -> spec_fn(rusqlite::Rows<'conn>, Seq<RowEvent<T>>) -> bool {
    |rows: rusqlite::Rows<'conn>, steps: Seq<RowEvent<T>>| rows_give::<T, F>(rows, steps)
}

/// The values that `decode` can return for a row.
pub open spec fn decoding<T, F: Fn(&rusqlite::Row<'_>) -> Result<T, rusqlite::Error>>(
    decode: F,
) -> spec_fn(T) -> bool {
    |value: T| decoder_returned(decode, Ok(value))
}

/// What running `sql` with `params` on `connection` through rusqlite's
/// `execute` can give.
pub open spec fn executing<P: rusqlite::Params>(
    connection: &rusqlite::Connection,
    sql: &str,
    params: P,
) -> spec_fn(Result<usize, rusqlite::Error>) -> bool {
    |result: Result<usize, rusqlite::Error>| execute_gives(connection, sql, params, result)
}

/// Prepares `sql` on `connection`. A statement is one that preparing gave;
/// an error is what opening the statement gave, whatever `params` are.
fn prepare_statement<'conn, P: rusqlite::Params>(
    connection: &'conn rusqlite::Connection,
    sql: &str,
    params: Ghost<P>,
) -> (res: Result<rusqlite::Statement<'conn>, rusqlite::Error>)
    ensures
        match res {
            Ok(statement) => preparing(connection, sql)(Ok(statement)),
            Err(e) => opened_by(preparing(connection, sql), binding(params@), Err(e)),
        },
{
    let res = sqlite::prepare(connection, sql);
    assert(preparing(connection, sql)(res));
    res
}

/// Binds `params` to `statement`, which preparing `sql` on `connection`
/// gave, leaving the statement handle as it was; the row handle or error is
/// what binding gave, and so what opening the statement gave.
fn bind_statement<'stmt, 'conn: 'stmt, P: rusqlite::Params>(
    connection: &'conn rusqlite::Connection,
    sql: &str,
    statement: &'stmt mut rusqlite::Statement<'conn>,
    params: P,
) -> (res: Result<rusqlite::Rows<'stmt>, rusqlite::Error>)
    requires
        preparing(connection, sql)(Ok(*old(statement))),
    ensures
        *final(statement) == *old(statement),
        binding(params)(*old(statement), res),
        opened_by(preparing(connection, sql), binding(params), res),
{
    let ghost given = params;
    let ghost prepared = *statement;
    let res = sqlite::query(statement, params);
    assert(binding(given)(prepared, res));
    res
}

/// Runs `sql` with `params` and reads exactly one row, decoded with
/// `decode`: prepares `sql`, binds `params`, and reads the statement's rows
/// through a cursor; failures to prepare or bind come out as rusqlite's
/// errors.
pub fn fetch_one<'conn, T, P: rusqlite::Params, F: Fn(&rusqlite::Row<'_>) -> Result<T, rusqlite::Error>>(
    connection: &'conn rusqlite::Connection,
    sql: &str,
    params: P,
    decode: F,
) -> (res: Result<T, QueryError>)
    requires
        forall|row: &rusqlite::Row<'_>| decode.requires((row,)),
    ensures
        one_row_outcome(preparing(connection, sql), binding(params), stepping::<T, F>(), decoding(decode), res),
{
    let ghost given = params;
    let mut statement = match prepare_statement::<P>(connection, sql, Ghost(given)) {
        Ok(statement) => statement,
        Err(e) => {
            return Err(QueryError::Sqlite(e));
        },
    };
    let rows = match bind_statement(connection, sql, &mut statement, params) {
        Ok(rows) => rows,
        Err(e) => {
            return Err(QueryError::Sqlite(e));
        },
    };
    let ghost opened = rows;
    let mut cursor = RowCursor::new(rows);
    let res = read_single(&mut cursor, &decode);
    proof {
        cursor.traced_rows_give();
        assert(cursor.events() =~= cursor.events().skip(0));
        assert(stepping::<T, F>()(opened, cursor.events()));
    }
    res
}

/// Runs `sql` with `params` and reads at most one row, decoded with
/// `decode`: prepares `sql`, binds `params`, and reads the statement's rows
/// through a cursor. A missing row is `None`, never an error.
pub fn fetch_optional<'conn, T, P: rusqlite::Params, F: Fn(&rusqlite::Row<'_>) -> Result<T, rusqlite::Error>>(
    connection: &'conn rusqlite::Connection,
    sql: &str,
    params: P,
    decode: F,
) -> (res: Result<Option<T>, QueryError>)
    requires
        forall|row: &rusqlite::Row<'_>| decode.requires((row,)),
    ensures
        optional_row_outcome(preparing(connection, sql), binding(params), stepping::<T, F>(), decoding(decode), res),
{
    let ghost given = params;
    let mut statement = match prepare_statement::<P>(connection, sql, Ghost(given)) {
        Ok(statement) => statement,
        Err(e) => {
            return Err(QueryError::Sqlite(e));
        },
    };
    let rows = match bind_statement(connection, sql, &mut statement, params) {
        Ok(rows) => rows,
        Err(e) => {
            return Err(QueryError::Sqlite(e));
        },
    };
    let ghost opened = rows;
    let mut cursor = RowCursor::new(rows);
    let res = read_optional(&mut cursor, &decode);
    proof {
        cursor.traced_rows_give();
        assert(cursor.events() =~= cursor.events().skip(0));
        assert(stepping::<T, F>()(opened, cursor.events()));
    }
    res
}

/// Runs `sql` with `params` and reads every row, decoded with `decode`,
/// stopping at the first error: prepares `sql`, binds `params`, and reads
/// the statement's rows through a cursor.
pub fn fetch_all<'conn, T, P: rusqlite::Params, F: Fn(&rusqlite::Row<'_>) -> Result<T, rusqlite::Error>>(
    connection: &'conn rusqlite::Connection,
    sql: &str,
    params: P,
    decode: F,
) -> (res: Result<Vec<T>, QueryError>)
    requires
        forall|row: &rusqlite::Row<'_>| decode.requires((row,)),
    ensures
        all_rows_outcome(preparing(connection, sql), binding(params), stepping::<T, F>(), decoding(decode), res),
{
    let ghost given = params;
    let mut statement = match prepare_statement::<P>(connection, sql, Ghost(given)) {
        Ok(statement) => statement,
        Err(e) => {
            return Err(QueryError::Sqlite(e));
        },
    };
    let rows = match bind_statement(connection, sql, &mut statement, params) {
        Ok(rows) => rows,
        Err(e) => {
            return Err(QueryError::Sqlite(e));
        },
    };
    let ghost opened = rows;
    let mut cursor = RowCursor::new(rows);
    let res = read_all(&mut cursor, &decode);
    proof {
        cursor.traced_rows_give();
        assert(cursor.events() =~= cursor.events().skip(0));
        assert(stepping::<T, F>()(opened, cursor.events()));
    }
    res
}

/// Prepares `sql` and binds `params` without executing the statement; its
/// rows are read later through [`Query::iter`].
pub fn prepare_query<'conn, T, P: rusqlite::Params>(
    connection: &'conn rusqlite::Connection,
    sql: &str,
    params: P,
) -> (res: Result<Query<'conn, T>, QueryError>)
    ensures
        prepared_outcome(preparing(connection, sql), binding(params), res),
{
    let ghost given = params;
    let mut statement = match prepare_statement::<P>(connection, sql, Ghost(given)) {
        Ok(statement) => statement,
        Err(e) => {
            return Err(QueryError::Sqlite(e));
        },
    };
    let ghost prepared = statement;
    match bind_statement(connection, sql, &mut statement, params) {
        Ok(_rows) => {},
        Err(e) => {
            return Err(QueryError::Sqlite(e));
        },
    }
    Ok(Query::from_bound(statement, Ghost(prepared)))
}

/// Runs `sql` with `params` as a statement that returns no rows, dropping
/// the count of changed rows.
pub fn execute_statement<P: rusqlite::Params>(
    connection: &rusqlite::Connection,
    sql: &str,
    params: P,
) -> (res: Result<(), QueryError>)
    ensures
        executed_outcome(executing(connection, sql, params), res),
{
    let ghost given = params;
    match sqlite::execute(connection, sql, params) {
        Ok(changed) => {
            assert(executing(connection, sql, given)(Ok::<usize, rusqlite::Error>(changed)));
            Ok(())
        },
        Err(e) => {
            assert(executing(connection, sql, given)(Err::<usize, rusqlite::Error>(e)));
            Err(QueryError::Sqlite(e))
        },
    }
}

/// Exactly one row.
impl<'conn, T> FromRows<'conn, 0> for T {
    type RowValue = T;

    open spec fn delivers(
        prepared: spec_fn(Result<rusqlite::Statement<'conn>, rusqlite::Error>) -> bool,
        bound: spec_fn(rusqlite::Statement<'conn>, Result<rusqlite::Rows<'conn>, rusqlite::Error>) -> bool,
        stepping: spec_fn(rusqlite::Rows<'conn>, Seq<RowEvent<T>>) -> bool,
        decoded: spec_fn(T) -> bool,
        executed: spec_fn(Result<usize, rusqlite::Error>) -> bool,
        res: Result<T, QueryError>,
    ) -> bool {
        one_row_outcome(prepared, bound, stepping, decoded, res)
    }

    fn from_rows<P: rusqlite::Params, F: Fn(&rusqlite::Row<'_>) -> Result<T, rusqlite::Error>>(
        connection: &'conn rusqlite::Connection,
        sql: &str,
        params: P,
        decode: F,
    ) -> (res: Result<T, QueryError>) {
        fetch_one(connection, sql, params, decode)
    }
}

/// At most one row.
impl<'conn, T> FromRows<'conn, 1> for Option<T> {
    type RowValue = T;

    open spec fn delivers(
        prepared: spec_fn(Result<rusqlite::Statement<'conn>, rusqlite::Error>) -> bool,
        bound: spec_fn(rusqlite::Statement<'conn>, Result<rusqlite::Rows<'conn>, rusqlite::Error>) -> bool,
        stepping: spec_fn(rusqlite::Rows<'conn>, Seq<RowEvent<T>>) -> bool,
        decoded: spec_fn(T) -> bool,
        executed: spec_fn(Result<usize, rusqlite::Error>) -> bool,
        res: Result<Option<T>, QueryError>,
    ) -> bool {
        optional_row_outcome(prepared, bound, stepping, decoded, res)
    }

    fn from_rows<P: rusqlite::Params, F: Fn(&rusqlite::Row<'_>) -> Result<T, rusqlite::Error>>(
        connection: &'conn rusqlite::Connection,
        sql: &str,
        params: P,
        decode: F,
    ) -> (res: Result<Option<T>, QueryError>) {
        fetch_optional(connection, sql, params, decode)
    }
}

/// Every row.
impl<'conn, T> FromRows<'conn, 2> for Vec<T> {
    type RowValue = T;

    open spec fn delivers(
        prepared: spec_fn(Result<rusqlite::Statement<'conn>, rusqlite::Error>) -> bool,
        bound: spec_fn(rusqlite::Statement<'conn>, Result<rusqlite::Rows<'conn>, rusqlite::Error>) -> bool,
        stepping: spec_fn(rusqlite::Rows<'conn>, Seq<RowEvent<T>>) -> bool,
        decoded: spec_fn(T) -> bool,
        executed: spec_fn(Result<usize, rusqlite::Error>) -> bool,
        res: Result<Vec<T>, QueryError>,
    ) -> bool {
        all_rows_outcome(prepared, bound, stepping, decoded, res)
    }

    fn from_rows<P: rusqlite::Params, F: Fn(&rusqlite::Row<'_>) -> Result<T, rusqlite::Error>>(
        connection: &'conn rusqlite::Connection,
        sql: &str,
        params: P,
        decode: F,
    ) -> (res: Result<Vec<T>, QueryError>) {
        fetch_all(connection, sql, params, decode)
    }
}

/// A prepared query, read lazily later.
impl<'conn, T> FromRows<'conn, 3> for Query<'conn, T> {
    type RowValue = T;

    open spec fn delivers(
        prepared: spec_fn(Result<rusqlite::Statement<'conn>, rusqlite::Error>) -> bool,
        bound: spec_fn(rusqlite::Statement<'conn>, Result<rusqlite::Rows<'conn>, rusqlite::Error>) -> bool,
        stepping: spec_fn(rusqlite::Rows<'conn>, Seq<RowEvent<T>>) -> bool,
        decoded: spec_fn(T) -> bool,
        executed: spec_fn(Result<usize, rusqlite::Error>) -> bool,
        res: Result<Query<'conn, T>, QueryError>,
    ) -> bool {
        prepared_outcome(prepared, bound, res)
    }

    fn from_rows<P: rusqlite::Params, F: Fn(&rusqlite::Row<'_>) -> Result<T, rusqlite::Error>>(
        connection: &'conn rusqlite::Connection,
        sql: &str,
        params: P,
        decode: F,
    ) -> (res: Result<Query<'conn, T>, QueryError>) {
        prepare_query(connection, sql, params)
    }
}

/// A statement that returns no rows.
impl<'conn> FromRows<'conn, 4> for () {
    type RowValue = ();

    open spec fn delivers(
        prepared: spec_fn(Result<rusqlite::Statement<'conn>, rusqlite::Error>) -> bool,
        bound: spec_fn(rusqlite::Statement<'conn>, Result<rusqlite::Rows<'conn>, rusqlite::Error>) -> bool,
        stepping: spec_fn(rusqlite::Rows<'conn>, Seq<RowEvent<()>>) -> bool,
        decoded: spec_fn(()) -> bool,
        executed: spec_fn(Result<usize, rusqlite::Error>) -> bool,
        res: Result<(), QueryError>,
    ) -> bool {
        executed_outcome(executed, res)
    }

    fn from_rows<P: rusqlite::Params, F: Fn(&rusqlite::Row<'_>) -> Result<(), rusqlite::Error>>(
        connection: &'conn rusqlite::Connection,
        sql: &str,
        params: P,
        decode: F,
    ) -> (res: Result<(), QueryError>) {
        execute_statement(connection, sql, params)
    }
}

} // verus!
