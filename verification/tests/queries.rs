//! Query results, row mapping, and parameter binding.

use queries_rusqlite::columns::{decode_tuple1, decode_tuple2, decode_tuple3};
use queries_rusqlite::{execute_statement, fetch_all, fetch_one, fetch_optional, QueryError};
use rusqlite::types::{FromSql, FromSqlResult, ToSqlOutput, ValueRef};
use rusqlite::{Connection, Error, Result, Row, ToSql};

#[derive(Debug, PartialEq)]
struct Person {
    id: i64,
    name: String,
    note: Option<String>,
}

fn person_from_row(row: &Row<'_>) -> Result<Person> {
    Ok(Person {
        id: row.get("id")?,
        name: row.get("display_name")?,
        note: row.get("note")?,
    })
}

#[derive(Debug, PartialEq)]
struct Pair(i64, String);

fn pair_from_row(row: &Row<'_>) -> Result<Pair> {
    Ok(Pair(row.get(0)?, row.get(1)?))
}

#[derive(Debug, PartialEq)]
struct ReorderedPair(i64, String);

fn reordered_pair_from_row(row: &Row<'_>) -> Result<ReorderedPair> {
    Ok(ReorderedPair(row.get("id")?, row.get("name")?))
}

#[derive(Debug, PartialEq)]
struct Generic<T> {
    value: T,
}

fn generic_from_row<T: FromSql>(row: &Row<'_>) -> Result<Generic<T>> {
    Ok(Generic { value: row.get("value")? })
}

#[derive(Debug, PartialEq)]
struct Keyword {
    kind: String,
}

fn keyword_from_row(row: &Row<'_>) -> Result<Keyword> {
    Ok(Keyword { kind: row.get("type")? })
}

#[derive(Debug, PartialEq)]
struct Identifier(i64);

impl ToSql for Identifier {
    fn to_sql(&self) -> Result<ToSqlOutput<'_>> {
        Ok(self.0.into())
    }
}

impl FromSql for Identifier {
    fn column_result(value: ValueRef<'_>) -> FromSqlResult<Self> {
        i64::column_result(value).map(Self)
    }
}

struct Unbindable;

impl ToSql for Unbindable {
    fn to_sql(&self) -> Result<ToSqlOutput<'_>> {
        Err(Error::ToSqlConversionFailure(Box::new(std::io::Error::other(
            "parameter conversion failed",
        ))))
    }
}

#[derive(Debug)]
struct MissingRowError;

fn missing_row_error(_: &Row<'_>) -> Result<MissingRowError> {
    Err(Error::QueryReturnedNoRows)
}

/// The rusqlite error that a query method reports for `error`.
fn as_rusqlite(error: QueryError) -> Error {
    match error {
        QueryError::QueryReturnedNoRows => Error::QueryReturnedNoRows,
        QueryError::QueryReturnedMoreThanOneRow => Error::QueryReturnedMoreThanOneRow,
        QueryError::Sqlite(e) => e,
    }
}

fn lift<T>(result: std::result::Result<T, QueryError>) -> Result<T> {
    result.map_err(as_rusqlite)
}

const SELECT_PERSON: &str = "SELECT note, name AS display_name, id FROM person WHERE id = ?1";

fn create(connection: &Connection) -> Result<()> {
    lift(execute_statement(
        connection,
        "CREATE TABLE person (id INTEGER PRIMARY KEY, name TEXT NOT NULL, note TEXT)",
        (),
    ))
}

fn insert(connection: &Connection, id: i64, name: &str, note: Option<&str>) -> Result<()> {
    lift(execute_statement(
        connection,
        "INSERT INTO person VALUES (?1, ?2, ?3)",
        (id, name, note),
    ))
}

fn person(connection: &Connection, id: i64) -> Result<Person> {
    lift(fetch_one(connection, SELECT_PERSON, (id,), person_from_row))
}

fn maybe_person(connection: &Connection, id: i64) -> Result<Option<Person>> {
    lift(fetch_optional(connection, SELECT_PERSON, (id,), person_from_row))
}

#[test]
fn row_shapes_and_parameter_binding() -> Result<()> {
    let connection = Connection::open_in_memory()?;
    create(&connection)?;
    let injection = "Robert'); DROP TABLE person; --";
    insert(&connection, 2, injection, Some("note"))?;
    insert(&connection, 1, "Ada", None)?;

    assert_eq!(
        person(&connection, 2)?,
        Person {
            id: 2,
            name: injection.to_owned(),
            note: Some("note".to_owned()),
        }
    );
    assert_eq!(maybe_person(&connection, 1)?, Some(person(&connection, 1)?));
    assert_eq!(maybe_person(&connection, 3)?, None);
    let people = lift(fetch_all(
        &connection,
        "SELECT note, name AS display_name, id FROM person ORDER BY id",
        (),
        person_from_row,
    ))?;
    assert_eq!(people, vec![person(&connection, 1)?, person(&connection, 2)?]);
    let numbers = lift(fetch_all(
        &connection,
        "SELECT id FROM person ORDER BY id",
        (),
        decode_tuple1::<i64>,
    ))?;
    assert_eq!(numbers, vec![(1,), (2,)]);
    assert_eq!(
        lift(fetch_one(
            &connection,
            "SELECT ?2, ?1, ?2",
            (42, "bound"),
            decode_tuple3::<String, i64, String>,
        ))?,
        ("bound".to_owned(), 42, "bound".to_owned())
    );
    let blob: &[u8] = b"\0\xff";
    assert_eq!(
        lift(fetch_one(
            &connection,
            "SELECT ?1, ?2",
            (blob, None::<&str>),
            decode_tuple2::<Vec<u8>, Option<String>>,
        ))?,
        (vec![0, 255], None)
    );
    let empty: &[u8] = &[];
    assert_eq!(
        lift(fetch_one(
            &connection,
            "SELECT ?1, ?2",
            (empty, Some("")),
            decode_tuple2::<Vec<u8>, Option<String>>,
        ))?,
        (Vec::new(), Some(String::new()))
    );
    assert_eq!(
        lift(fetch_one(&connection, "SELECT ?1", (Identifier(17),), decode_tuple1::<Identifier>))?,
        (Identifier(17),)
    );
    assert_eq!(
        lift(fetch_one(&connection, "SELECT 12, 'pair'", (), pair_from_row))?,
        Pair(12, "pair".to_owned())
    );
    assert_eq!(
        lift(fetch_one(
            &connection,
            "SELECT 'pair' AS name, 12 AS id",
            (),
            reordered_pair_from_row,
        ))?,
        ReorderedPair(12, "pair".to_owned())
    );
    assert_eq!(
        lift(fetch_one(
            &connection,
            "SELECT ?1 AS value",
            (Identifier(23),),
            generic_from_row::<Identifier>,
        ))?,
        Generic {
            value: Identifier(23)
        }
    );
    assert_eq!(
        lift(fetch_one(&connection, "SELECT 'keyword' AS type", (), keyword_from_row))?,
        Keyword {
            kind: "keyword".to_owned()
        }
    );
    Ok(())
}

#[test]
fn cardinality_is_checked_for_single_and_optional_rows() -> Result<()> {
    let connection = Connection::open_in_memory()?;
    create(&connection)?;
    let sql = "SELECT id FROM person ORDER BY id";
    let single = |c: &Connection| lift(fetch_one(c, sql, (), decode_tuple1::<i64>));
    let optional = |c: &Connection| lift(fetch_optional(c, sql, (), decode_tuple1::<i64>));
    let numbers = |c: &Connection| lift(fetch_all(c, sql, (), decode_tuple1::<i64>));
    assert!(matches!(single(&connection), Err(Error::QueryReturnedNoRows)));
    assert_eq!(optional(&connection)?, None);
    assert!(numbers(&connection)?.is_empty());
    insert(&connection, 1, "one", None)?;
    assert_eq!(single(&connection)?, (1,));
    assert_eq!(optional(&connection)?, Some((1,)));
    insert(&connection, 2, "two", None)?;
    assert!(matches!(single(&connection), Err(Error::QueryReturnedMoreThanOneRow)));
    assert!(matches!(optional(&connection), Err(Error::QueryReturnedMoreThanOneRow)));
    Ok(())
}

#[test]
fn errors_keep_their_original_meaning() -> Result<()> {
    let connection = Connection::open_in_memory()?;
    let c = &connection;
    assert!(matches!(
        lift(fetch_optional(c, "SELECT 1", (), missing_row_error)),
        Err(Error::QueryReturnedNoRows)
    ));
    assert!(matches!(
        lift(fetch_one(c, "SELECT ?1", (Unbindable,), decode_tuple1::<i64>)),
        Err(Error::ToSqlConversionFailure(_))
    ));
    assert!(matches!(
        lift(fetch_one(c, "SELECT ?1", (), decode_tuple1::<i64>)),
        Err(Error::InvalidParameterCount(0, 1))
    ));
    assert!(matches!(
        lift(fetch_one(c, "SELECT 1", (1,), decode_tuple1::<i64>)),
        Err(Error::InvalidParameterCount(1, 0))
    ));
    let invalid = "SELECT missing FROM nonexistent";
    assert!(lift(fetch_one(c, invalid, (), decode_tuple1::<i64>)).is_err());
    assert!(lift(fetch_optional(c, invalid, (), decode_tuple1::<i64>)).is_err());
    assert!(lift(fetch_all(c, invalid, (), decode_tuple1::<i64>)).is_err());
    assert!(matches!(
        lift(fetch_all(c, "SELECT ?1", (Unbindable,), decode_tuple1::<i64>)),
        Err(Error::ToSqlConversionFailure(_))
    ));
    assert!(matches!(
        lift(fetch_one(c, "SELECT 1; SELECT 2", (), decode_tuple1::<i64>)),
        Err(Error::MultipleStatement)
    ));
    assert!(matches!(
        lift(fetch_one(c, "SELECT abs(?1)", (i64::MIN,), decode_tuple1::<i64>)),
        Err(Error::SqliteFailure(_, _))
    ));
    let two_steps = "SELECT 1 UNION ALL SELECT abs(?1)";
    assert!(matches!(
        lift(fetch_optional(c, two_steps, (i64::MIN,), decode_tuple1::<i64>)),
        Err(Error::SqliteFailure(_, _))
    ));
    assert!(matches!(
        lift(fetch_all(c, two_steps, (i64::MIN,), decode_tuple1::<i64>)),
        Err(Error::SqliteFailure(_, _))
    ));
    assert!(matches!(
        lift(fetch_one(c, "SELECT 'text'", (), decode_tuple1::<i64>)),
        Err(Error::InvalidColumnType(..))
    ));
    assert!(matches!(
        lift(fetch_all(c, "SELECT 1 UNION ALL SELECT 'text'", (), decode_tuple1::<i64>)),
        Err(Error::InvalidColumnType(..))
    ));
    assert!(matches!(
        lift(fetch_one(c, "SELECT 1", (), decode_tuple2::<i64, i64>)),
        Err(Error::InvalidColumnIndex(1))
    ));
    assert!(matches!(
        lift(fetch_one(c, "SELECT 1 AS wrong_name", (), generic_from_row::<i64>)),
        Err(Error::InvalidColumnName(_))
    ));
    assert!(matches!(
        lift(execute_statement(c, "SELECT 1", ())),
        Err(Error::ExecuteReturnedResults)
    ));
    Ok(())
}
