//! Positional decoding for each supported tuple length.

use queries_rusqlite::columns::{decode_tuple1, decode_tuple2, decode_tuple3, decode_tuple4, decode_tuple5, decode_tuple6, decode_tuple7, decode_tuple8, decode_tuple9, decode_tuple10, decode_tuple11, decode_tuple12, decode_tuple13, decode_tuple14, decode_tuple15, decode_tuple16};
use queries_rusqlite::{fetch_one, QueryError};
use rusqlite::{Connection, Error, Result};

fn rusqlite_error(error: QueryError) -> Error {
    match error {
        QueryError::QueryReturnedNoRows => Error::QueryReturnedNoRows,
        QueryError::QueryReturnedMoreThanOneRow => Error::QueryReturnedMoreThanOneRow,
        QueryError::Sqlite(e) => e,
    }
}

/// The SQL that selects the integers `0..count`, with the last one replaced
/// by text when `spoil_last` is set.
fn select_columns(count: usize, spoil_last: bool) -> String {
    let mut columns: Vec<String> = (0..count).map(|i| i.to_string()).collect();
    if spoil_last {
        columns[count - 1] = "'not an integer'".to_owned();
    }
    format!("SELECT {}", columns.join(", "))
}

#[test]
fn tuples_decode_in_order_and_propagate_conversion_errors() -> Result<()> {
    let connection = Connection::open_in_memory()?;


    let (a,) = fetch_one(&connection, &select_columns(1, false), (), decode_tuple1::<i64>)
        .map_err(rusqlite_error)?;
    assert_eq!([a], [0]);
    let error = fetch_one(&connection, &select_columns(1, true), (), decode_tuple1::<i64>)
        .map_err(rusqlite_error);
    assert!(matches!(error, Err(Error::InvalidColumnType(index, _, _)) if index == 0));

    let (a, b) = fetch_one(&connection, &select_columns(2, false), (), decode_tuple2::<i64, i64>)
        .map_err(rusqlite_error)?;
    assert_eq!([a, b], [0, 1]);
    let error = fetch_one(&connection, &select_columns(2, true), (), decode_tuple2::<i64, i64>)
        .map_err(rusqlite_error);
    assert!(matches!(error, Err(Error::InvalidColumnType(index, _, _)) if index == 1));

    let (a, b, c) = fetch_one(&connection, &select_columns(3, false), (), decode_tuple3::<i64, i64, i64>)
        .map_err(rusqlite_error)?;
    assert_eq!([a, b, c], [0, 1, 2]);
    let error = fetch_one(&connection, &select_columns(3, true), (), decode_tuple3::<i64, i64, i64>)
        .map_err(rusqlite_error);
    assert!(matches!(error, Err(Error::InvalidColumnType(index, _, _)) if index == 2));

    let (a, b, c, d) = fetch_one(&connection, &select_columns(4, false), (), decode_tuple4::<i64, i64, i64, i64>)
        .map_err(rusqlite_error)?;
    assert_eq!([a, b, c, d], [0, 1, 2, 3]);
    let error = fetch_one(&connection, &select_columns(4, true), (), decode_tuple4::<i64, i64, i64, i64>)
        .map_err(rusqlite_error);
    assert!(matches!(error, Err(Error::InvalidColumnType(index, _, _)) if index == 3));

    let (a, b, c, d, e) = fetch_one(&connection, &select_columns(5, false), (), decode_tuple5::<i64, i64, i64, i64, i64>)
        .map_err(rusqlite_error)?;
    assert_eq!([a, b, c, d, e], [0, 1, 2, 3, 4]);
    let error = fetch_one(&connection, &select_columns(5, true), (), decode_tuple5::<i64, i64, i64, i64, i64>)
        .map_err(rusqlite_error);
    assert!(matches!(error, Err(Error::InvalidColumnType(index, _, _)) if index == 4));

    let (a, b, c, d, e, f) = fetch_one(&connection, &select_columns(6, false), (), decode_tuple6::<i64, i64, i64, i64, i64, i64>)
        .map_err(rusqlite_error)?;
    assert_eq!([a, b, c, d, e, f], [0, 1, 2, 3, 4, 5]);
    let error = fetch_one(&connection, &select_columns(6, true), (), decode_tuple6::<i64, i64, i64, i64, i64, i64>)
        .map_err(rusqlite_error);
    assert!(matches!(error, Err(Error::InvalidColumnType(index, _, _)) if index == 5));

    let (a, b, c, d, e, f, g) = fetch_one(&connection, &select_columns(7, false), (), decode_tuple7::<i64, i64, i64, i64, i64, i64, i64>)
        .map_err(rusqlite_error)?;
    assert_eq!([a, b, c, d, e, f, g], [0, 1, 2, 3, 4, 5, 6]);
    let error = fetch_one(&connection, &select_columns(7, true), (), decode_tuple7::<i64, i64, i64, i64, i64, i64, i64>)
        .map_err(rusqlite_error);
    assert!(matches!(error, Err(Error::InvalidColumnType(index, _, _)) if index == 6));

    let (a, b, c, d, e, f, g, h) = fetch_one(&connection, &select_columns(8, false), (), decode_tuple8::<i64, i64, i64, i64, i64, i64, i64, i64>)
        .map_err(rusqlite_error)?;
    assert_eq!([a, b, c, d, e, f, g, h], [0, 1, 2, 3, 4, 5, 6, 7]);
    let error = fetch_one(&connection, &select_columns(8, true), (), decode_tuple8::<i64, i64, i64, i64, i64, i64, i64, i64>)
        .map_err(rusqlite_error);
    assert!(matches!(error, Err(Error::InvalidColumnType(index, _, _)) if index == 7));

    let (a, b, c, d, e, f, g, h, i) = fetch_one(&connection, &select_columns(9, false), (), decode_tuple9::<i64, i64, i64, i64, i64, i64, i64, i64, i64>)
        .map_err(rusqlite_error)?;
    assert_eq!([a, b, c, d, e, f, g, h, i], [0, 1, 2, 3, 4, 5, 6, 7, 8]);
    let error = fetch_one(&connection, &select_columns(9, true), (), decode_tuple9::<i64, i64, i64, i64, i64, i64, i64, i64, i64>)
        .map_err(rusqlite_error);
    assert!(matches!(error, Err(Error::InvalidColumnType(index, _, _)) if index == 8));

    let (a, b, c, d, e, f, g, h, i, j) = fetch_one(&connection, &select_columns(10, false), (), decode_tuple10::<i64, i64, i64, i64, i64, i64, i64, i64, i64, i64>)
        .map_err(rusqlite_error)?;
    assert_eq!([a, b, c, d, e, f, g, h, i, j], [0, 1, 2, 3, 4, 5, 6, 7, 8, 9]);
    let error = fetch_one(&connection, &select_columns(10, true), (), decode_tuple10::<i64, i64, i64, i64, i64, i64, i64, i64, i64, i64>)
        .map_err(rusqlite_error);
    assert!(matches!(error, Err(Error::InvalidColumnType(index, _, _)) if index == 9));

    let (a, b, c, d, e, f, g, h, i, j, k) = fetch_one(&connection, &select_columns(11, false), (), decode_tuple11::<i64, i64, i64, i64, i64, i64, i64, i64, i64, i64, i64>)
        .map_err(rusqlite_error)?;
    assert_eq!([a, b, c, d, e, f, g, h, i, j, k], [0, 1, 2, 3, 4, 5, 6, 7, 8, 9, 10]);
    let error = fetch_one(&connection, &select_columns(11, true), (), decode_tuple11::<i64, i64, i64, i64, i64, i64, i64, i64, i64, i64, i64>)
        .map_err(rusqlite_error);
    assert!(matches!(error, Err(Error::InvalidColumnType(index, _, _)) if index == 10));

    let (a, b, c, d, e, f, g, h, i, j, k, l) = fetch_one(&connection, &select_columns(12, false), (), decode_tuple12::<i64, i64, i64, i64, i64, i64, i64, i64, i64, i64, i64, i64>)
        .map_err(rusqlite_error)?;
    assert_eq!([a, b, c, d, e, f, g, h, i, j, k, l], [0, 1, 2, 3, 4, 5, 6, 7, 8, 9, 10, 11]);
    let error = fetch_one(&connection, &select_columns(12, true), (), decode_tuple12::<i64, i64, i64, i64, i64, i64, i64, i64, i64, i64, i64, i64>)
        .map_err(rusqlite_error);
    assert!(matches!(error, Err(Error::InvalidColumnType(index, _, _)) if index == 11));

    let (a, b, c, d, e, f, g, h, i, j, k, l, m) = fetch_one(&connection, &select_columns(13, false), (), decode_tuple13::<i64, i64, i64, i64, i64, i64, i64, i64, i64, i64, i64, i64, i64>)
        .map_err(rusqlite_error)?;
    assert_eq!([a, b, c, d, e, f, g, h, i, j, k, l, m], [0, 1, 2, 3, 4, 5, 6, 7, 8, 9, 10, 11, 12]);
    let error = fetch_one(&connection, &select_columns(13, true), (), decode_tuple13::<i64, i64, i64, i64, i64, i64, i64, i64, i64, i64, i64, i64, i64>)
        .map_err(rusqlite_error);
    assert!(matches!(error, Err(Error::InvalidColumnType(index, _, _)) if index == 12));

    let (a, b, c, d, e, f, g, h, i, j, k, l, m, n) = fetch_one(&connection, &select_columns(14, false), (), decode_tuple14::<i64, i64, i64, i64, i64, i64, i64, i64, i64, i64, i64, i64, i64, i64>)
        .map_err(rusqlite_error)?;
    assert_eq!([a, b, c, d, e, f, g, h, i, j, k, l, m, n], [0, 1, 2, 3, 4, 5, 6, 7, 8, 9, 10, 11, 12, 13]);
    let error = fetch_one(&connection, &select_columns(14, true), (), decode_tuple14::<i64, i64, i64, i64, i64, i64, i64, i64, i64, i64, i64, i64, i64, i64>)
        .map_err(rusqlite_error);
    assert!(matches!(error, Err(Error::InvalidColumnType(index, _, _)) if index == 13));

    let (a, b, c, d, e, f, g, h, i, j, k, l, m, n, o) = fetch_one(&connection, &select_columns(15, false), (), decode_tuple15::<i64, i64, i64, i64, i64, i64, i64, i64, i64, i64, i64, i64, i64, i64, i64>)
        .map_err(rusqlite_error)?;
    assert_eq!([a, b, c, d, e, f, g, h, i, j, k, l, m, n, o], [0, 1, 2, 3, 4, 5, 6, 7, 8, 9, 10, 11, 12, 13, 14]);
    let error = fetch_one(&connection, &select_columns(15, true), (), decode_tuple15::<i64, i64, i64, i64, i64, i64, i64, i64, i64, i64, i64, i64, i64, i64, i64>)
        .map_err(rusqlite_error);
    assert!(matches!(error, Err(Error::InvalidColumnType(index, _, _)) if index == 14));

    let (a, b, c, d, e, f, g, h, i, j, k, l, m, n, o, p) = fetch_one(&connection, &select_columns(16, false), (), decode_tuple16::<i64, i64, i64, i64, i64, i64, i64, i64, i64, i64, i64, i64, i64, i64, i64, i64>)
        .map_err(rusqlite_error)?;
    assert_eq!([a, b, c, d, e, f, g, h, i, j, k, l, m, n, o, p], [0, 1, 2, 3, 4, 5, 6, 7, 8, 9, 10, 11, 12, 13, 14, 15]);
    let error = fetch_one(&connection, &select_columns(16, true), (), decode_tuple16::<i64, i64, i64, i64, i64, i64, i64, i64, i64, i64, i64, i64, i64, i64, i64, i64>)
        .map_err(rusqlite_error);
    assert!(matches!(error, Err(Error::InvalidColumnType(index, _, _)) if index == 15));
    Ok(())
}
