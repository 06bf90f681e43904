//! Lazy execution and iteration over prepared queries.

use queries_rusqlite::columns::decode_tuple1;
use queries_rusqlite::{prepare_query, Query, QueryError, RowCursor};
use rusqlite::types::ToSqlOutput;
use rusqlite::{Connection, Error, Result, Row, ToSql};

type NumberQuery<'conn> = Query<'conn, (i64,)>;

/// How the tests decode rows.
type Decode<T> = fn(&Row<'_>) -> Result<T>;

struct Unbindable;

impl ToSql for Unbindable {
    fn to_sql(&self) -> Result<ToSqlOutput<'_>> {
        Err(Error::ToSqlConversionFailure(Box::new(std::io::Error::other(
            "parameter conversion failed",
        ))))
    }
}

fn sqlite_error(error: QueryError) -> Error {
    match error {
        QueryError::QueryReturnedNoRows => Error::QueryReturnedNoRows,
        QueryError::QueryReturnedMoreThanOneRow => Error::QueryReturnedMoreThanOneRow,
        QueryError::Sqlite(e) => e,
    }
}

/// The next item of a cursor over single integer columns, in rusqlite's terms.
fn next_number(rows: &mut RowCursor<'_, (i64,), Decode<(i64,)>>) -> Option<Result<(i64,)>> {
    let decode: Decode<(i64,)> = decode_tuple1::<i64>;
    rows.fetch(&decode).map(|item| item.map_err(sqlite_error))
}

fn next_text(rows: &mut RowCursor<'_, (String,), Decode<(String,)>>) -> Option<Result<(String,)>> {
    let decode: Decode<(String,)> = decode_tuple1::<String>;
    rows.fetch(&decode).map(|item| item.map_err(sqlite_error))
}

/// Every item of a fresh iteration, stopping at the first error.
fn collect_numbers(query: &mut NumberQuery<'_>) -> Result<Vec<(i64,)>> {
    let mut rows = query.iter();
    let mut values = Vec::new();
    while let Some(item) = next_number(&mut rows) {
        values.push(item?);
    }
    Ok(values)
}

fn numbers_query<'c>(connection: &'c Connection, sql: &str, params: impl rusqlite::Params) -> Result<NumberQuery<'c>> {
    prepare_query(connection, sql, params).map_err(sqlite_error)
}

#[test]
fn iterators_read_rows_and_can_be_restarted() -> Result<()> {
    let connection = Connection::open_in_memory()?;
    let mut query = numbers_query(
        &connection,
        "SELECT ?1 UNION ALL SELECT ?1 + 1 UNION ALL SELECT ?1 + 2",
        (4,),
    )?;
    let mut rows = query.iter();
    assert_eq!(next_number(&mut rows).transpose()?, Some((4,)));
    drop(rows);
    assert_eq!(collect_numbers(&mut query)?, vec![(4,), (5,), (6,)]);
    assert_eq!(collect_numbers(&mut query)?, vec![(4,), (5,), (6,)]);

    let mut empty = numbers_query(&connection, "SELECT 1 WHERE 0", ())?;
    let mut rows = empty.iter();
    assert!(next_number(&mut rows).is_none());
    assert!(next_number(&mut rows).is_none());
    Ok(())
}

#[test]
fn statements_execute_only_when_iteration_advances() -> Result<()> {
    let connection = Connection::open_in_memory()?;
    connection.execute("CREATE TABLE event (value INTEGER)", [])?;
    let count =
        || connection.query_row("SELECT count(*) FROM event", [], |row| row.get::<_, i64>(0));
    let mut query = numbers_query(&connection, "INSERT INTO event VALUES (?1) RETURNING value", (7,))?;
    assert_eq!(count()?, 0);
    let mut rows = query.iter();
    assert_eq!(count()?, 0);
    assert_eq!(next_number(&mut rows).transpose()?, Some((7,)));
    assert_eq!(count()?, 1);
    assert!(next_number(&mut rows).is_none());
    assert!(next_number(&mut rows).is_none());
    drop(rows);
    assert_eq!(collect_numbers(&mut query)?, vec![(7,)]);
    assert_eq!(count()?, 2);
    Ok(())
}

#[test]
fn bound_values_outlive_their_arguments() -> Result<()> {
    let connection = Connection::open_in_memory()?;
    let mut query: Query<'_, (String,)> = {
        let text = String::from("owned by SQLite after binding");
        prepare_query(&connection, "SELECT ?1", (&text,)).map_err(sqlite_error)?
    };
    let mut rows = query.iter();
    let mut values = Vec::new();
    while let Some(item) = next_text(&mut rows) {
        values.push(item?);
    }
    assert_eq!(values, vec![(String::from("owned by SQLite after binding"),)]);
    Ok(())
}

#[test]
fn mapping_errors_do_not_hide_later_rows() -> Result<()> {
    let connection = Connection::open_in_memory()?;
    let mut query = numbers_query(
        &connection,
        "SELECT 1 UNION ALL SELECT 'wrong type' UNION ALL SELECT 3",
        (),
    )?;
    let mut rows = query.iter();
    assert_eq!(next_number(&mut rows).transpose()?, Some((1,)));
    assert!(matches!(next_number(&mut rows), Some(Err(Error::InvalidColumnType(..)))));
    assert_eq!(next_number(&mut rows).transpose()?, Some((3,)));
    assert!(next_number(&mut rows).is_none());
    Ok(())
}

#[test]
fn query_errors_are_reported_at_the_correct_stage() -> Result<()> {
    let connection = Connection::open_in_memory()?;
    assert!(matches!(
        numbers_query(&connection, "SELECT ?1", ()),
        Err(Error::InvalidParameterCount(0, 1))
    ));
    assert!(matches!(
        numbers_query(&connection, "SELECT 1", (1,)),
        Err(Error::InvalidParameterCount(1, 0))
    ));
    assert!(matches!(
        numbers_query(&connection, "SELECT ?1", (Unbindable,)),
        Err(Error::ToSqlConversionFailure(_))
    ));
    assert!(numbers_query(&connection, "SELECT missing FROM missing_table", ()).is_err());

    let mut query = numbers_query(&connection, "SELECT abs(?1)", (i64::MIN,))?;
    let mut rows = query.iter();
    assert!(matches!(next_number(&mut rows), Some(Err(Error::SqliteFailure(_, _)))));
    assert!(next_number(&mut rows).is_none());
    drop(rows);

    let mut query = numbers_query(&connection, "SELECT 1 UNION ALL SELECT abs(?1)", (i64::MIN,))?;
    let mut rows = query.iter();
    assert_eq!(next_number(&mut rows).transpose()?, Some((1,)));
    assert!(matches!(next_number(&mut rows), Some(Err(Error::SqliteFailure(_, _)))));
    assert!(next_number(&mut rows).is_none());
    Ok(())
}
