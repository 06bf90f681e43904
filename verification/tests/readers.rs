//! The readers on statements chosen to reach each of their outcomes.

use queries_rusqlite::columns::decode_tuple1;
use queries_rusqlite::{
    execute_statement, fetch_all, fetch_one, fetch_optional, prepare_query, FromRows,
    FromRowsCategory, Probe, Query, QueryError,
};
use rusqlite::{Connection, Error, Result, Row};

fn numbers(row: &Row<'_>) -> Result<(i64,)> {
    decode_tuple1::<i64>(row)
}

#[test]
fn single_row_reports_a_decoding_error_before_looking_further() -> Result<()> {
    let connection = Connection::open_in_memory()?;
    let result = fetch_one(&connection, "SELECT 'text' UNION ALL SELECT 2", (), numbers);
    assert!(matches!(result, Err(QueryError::Sqlite(Error::InvalidColumnType(0, _, _)))));
    Ok(())
}

#[test]
fn optional_row_checks_for_a_second_row_even_after_a_decoding_error() -> Result<()> {
    let connection = Connection::open_in_memory()?;
    let result = fetch_optional(&connection, "SELECT 'text' UNION ALL SELECT 2", (), numbers);
    assert!(matches!(result, Err(QueryError::QueryReturnedMoreThanOneRow)));
    let result = fetch_optional(&connection, "SELECT 'text'", (), numbers);
    assert!(matches!(result, Err(QueryError::Sqlite(Error::InvalidColumnType(0, _, _)))));
    Ok(())
}

#[test]
fn optional_row_never_reports_a_missing_row_as_an_error() -> Result<()> {
    let connection = Connection::open_in_memory()?;
    let result = fetch_optional(&connection, "SELECT 1 WHERE 0", (), numbers);
    assert!(matches!(result, Ok(None)));
    let result = fetch_one(&connection, "SELECT 1 WHERE 0", (), numbers);
    assert!(matches!(result, Err(QueryError::QueryReturnedNoRows)));
    Ok(())
}

#[test]
fn every_row_keeps_the_order_of_the_statement() -> Result<()> {
    let connection = Connection::open_in_memory()?;
    let result = fetch_all(
        &connection,
        "SELECT 3 UNION ALL SELECT 1 UNION ALL SELECT 2",
        (),
        numbers,
    );
    assert_eq!(result.ok(), Some(vec![(3,), (1,), (2,)]));
    let result = fetch_all(&connection, "SELECT 1 WHERE 0", (), numbers);
    assert_eq!(result.ok(), Some(Vec::new()));
    Ok(())
}

#[test]
fn every_row_stops_at_the_first_error() -> Result<()> {
    let connection = Connection::open_in_memory()?;
    connection.execute("CREATE TABLE seen (value INTEGER)", [])?;
    let result = fetch_all(
        &connection,
        "INSERT INTO seen VALUES (1), ('x'), (3) RETURNING value",
        (),
        numbers,
    );
    assert!(matches!(result, Err(QueryError::Sqlite(Error::InvalidColumnType(0, _, _)))));
    Ok(())
}

#[test]
fn statements_without_rows_discard_the_change_count() -> Result<()> {
    let connection = Connection::open_in_memory()?;
    assert!(execute_statement(&connection, "CREATE TABLE t (v INTEGER)", ()).is_ok());
    assert!(execute_statement(&connection, "INSERT INTO t VALUES (1), (2)", ()).is_ok());
    let result = fetch_one(&connection, "SELECT count(*) FROM t", (), numbers);
    assert_eq!(result.ok(), Some((2,)));
    Ok(())
}

#[test]
fn declared_types_select_their_category() {
    assert_eq!(FromRowsCategory::<Option<(i64,)>>::VALUE, 1);
    assert_eq!(FromRowsCategory::<Vec<(i64,)>>::VALUE, 2);
    assert_eq!(FromRowsCategory::<Query<'static, (i64,)>>::VALUE, 3);
    assert_eq!(FromRowsCategory::<()>::VALUE, 4);
    assert_eq!(FromRowsCategory::<(i64,)>::VALUE, 0);
    assert_eq!(<FromRowsCategory<Option<i64>> as Probe>::VALUE, 0);
}

#[test]
fn each_category_reads_through_from_rows() -> Result<()> {
    let connection = Connection::open_in_memory()?;
    let c = &connection;
    let unit = <() as FromRows<'_, 4>>::from_rows(c, "CREATE TABLE n (v INTEGER)", (), |_: &Row<'_>| Ok(()));
    assert!(unit.is_ok());
    let unit = <() as FromRows<'_, 4>>::from_rows(c, "INSERT INTO n VALUES (5), (6)", (), |_: &Row<'_>| Ok(()));
    assert!(unit.is_ok());
    let sql = "SELECT v FROM n ORDER BY v";
    let all = <Vec<(i64,)> as FromRows<'_, 2>>::from_rows(c, sql, (), numbers);
    assert_eq!(all.ok(), Some(vec![(5,), (6,)]));
    let optional = <Option<(i64,)> as FromRows<'_, 1>>::from_rows(c, sql, (), numbers);
    assert!(matches!(optional, Err(QueryError::QueryReturnedMoreThanOneRow)));
    let single = <(i64,) as FromRows<'_, 0>>::from_rows(c, "SELECT max(v) FROM n", (), numbers);
    assert_eq!(single.ok(), Some((6,)));
    let query = <Query<'_, (i64,)> as FromRows<'_, 3>>::from_rows(c, sql, (), numbers);
    let mut query = match query {
        Ok(query) => query,
        Err(e) => panic!("preparing failed: {:?}", e),
    };
    let mut rows = query.iter();
    assert!(matches!(rows.fetch(&numbers), Some(Ok((5,)))));
    assert!(matches!(rows.fetch(&numbers), Some(Ok((6,)))));
    assert!(rows.fetch(&numbers).is_none());
    Ok(())
}

#[test]
fn a_prepared_query_does_not_run_until_iterated() -> Result<()> {
    let connection = Connection::open_in_memory()?;
    connection.execute("CREATE TABLE log (v INTEGER)", [])?;
    let prepared = prepare_query::<(i64,), _>(&connection, "INSERT INTO log VALUES (1) RETURNING v", ());
    assert!(prepared.is_ok());
    let count: i64 = connection.query_row("SELECT count(*) FROM log", [], |row| row.get(0))?;
    assert_eq!(count, 0);
    Ok(())
}

#[test]
fn skipping_a_row_does_not_decode_it() -> Result<()> {
    let connection = Connection::open_in_memory()?;
    let mut query = match prepare_query::<(i64,), _>(&connection, "SELECT 'x' UNION ALL SELECT 2", ()) {
        Ok(query) => query,
        Err(e) => panic!("preparing failed: {:?}", e),
    };
    let mut rows = query.iter();
    assert!(matches!(rows.skip(), Ok(true)));
    assert!(matches!(rows.fetch(&numbers), Some(Ok((2,)))));
    assert!(matches!(rows.skip(), Ok(false)));
    Ok(())
}
