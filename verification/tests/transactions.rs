//! Connection ownership and transaction completion.

use queries_rusqlite::columns::decode_tuple1;
use queries_rusqlite::{execute_statement, fetch_all, ConnectionSource, QueryError};
use rusqlite::{Connection, DropBehavior, Error, Result};

fn into_error(error: QueryError) -> Error {
    match error {
        QueryError::QueryReturnedNoRows => Error::QueryReturnedNoRows,
        QueryError::QueryReturnedMoreThanOneRow => Error::QueryReturnedMoreThanOneRow,
        QueryError::Sqlite(e) => e,
    }
}

fn create<S: ConnectionSource>(source: &S) -> Result<()> {
    execute_statement(source.connection(), "CREATE TABLE item (value INTEGER NOT NULL)", ())
        .map_err(into_error)
}

fn insert<S: ConnectionSource>(source: &S, value: i64) -> Result<()> {
    execute_statement(source.connection(), "INSERT INTO item VALUES (?1)", (value,))
        .map_err(into_error)
}

fn items<S: ConnectionSource>(source: &S) -> Result<Vec<(i64,)>> {
    fetch_all(
        source.connection(),
        "SELECT value FROM item ORDER BY value",
        (),
        decode_tuple1::<i64>,
    )
    .map_err(into_error)
}

fn end_transaction<S: ConnectionSource>(source: &S) -> Result<()> {
    execute_statement(source.connection(), "ROLLBACK", ()).map_err(into_error)
}

#[test]
fn owned_connection_can_commit_rollback_and_drop_transactions() -> Result<()> {
    let mut store = Connection::open_in_memory()?;
    create(&store)?;
    let transaction = store.transaction()?;
    insert(&transaction, 1)?;
    assert_eq!(items(&transaction)?, vec![(1,)]);
    transaction.commit()?;
    assert_eq!(items(&store)?, vec![(1,)]);

    let transaction = store.transaction()?;
    insert(&transaction, 2)?;
    transaction.rollback()?;
    assert_eq!(items(&store)?, vec![(1,)]);

    {
        let transaction = store.transaction()?;
        insert(&transaction, 3)?;
    }
    assert_eq!(items(&store)?, vec![(1,)]);
    Ok(())
}

#[test]
fn mutable_connection_and_existing_transactions_are_supported() -> Result<()> {
    let mut connection = Connection::open_in_memory()?;
    {
        let store: &mut Connection = &mut connection;
        create(&store)?;
        insert(&store, 1)?;
        let transaction = store.transaction()?;
        insert(&transaction, 2)?;
        transaction.commit()?;
    }

    let transaction = connection.transaction()?;
    insert(&transaction, 3)?;
    transaction.rollback()?;
    assert_eq!(items(&&connection)?, vec![(1,), (2,)]);

    let transaction = connection.transaction()?;
    {
        let borrowed: &Connection = &transaction;
        insert(&borrowed, 4)?;
    }
    transaction.commit()?;
    assert_eq!(items(&&connection)?, vec![(1,), (2,), (4,)]);
    Ok(())
}

#[test]
fn supplied_transaction_keeps_its_drop_behavior() -> Result<()> {
    let mut connection = Connection::open_in_memory()?;
    create(&connection)?;
    let mut transaction = connection.transaction()?;
    transaction.set_drop_behavior(DropBehavior::Commit);
    {
        let store = transaction;
        insert(&store, 5)?;
    }
    assert_eq!(items(&connection)?, vec![(5,)]);
    Ok(())
}

#[test]
fn failed_commit_propagates_the_error_and_rolls_back() -> Result<()> {
    let mut connection = Connection::open_in_memory()?;
    connection.execute_batch(
        "PRAGMA foreign_keys = ON;
         CREATE TABLE parent (id INTEGER PRIMARY KEY);
         CREATE TABLE child (
             parent_id INTEGER REFERENCES parent(id) DEFERRABLE INITIALLY DEFERRED
         );",
    )?;
    let transaction = connection.transaction()?;
    execute_statement(transaction.connection(), "INSERT INTO child VALUES (?1)", (99,))
        .map_err(into_error)?;
    assert!(matches!(transaction.commit(), Err(Error::SqliteFailure(_, _))));
    assert!(connection.is_autocommit());
    assert_eq!(
        connection.query_row("SELECT count(*) FROM child", [], |row| row.get::<_, i64>(0))?,
        0
    );
    Ok(())
}

#[test]
fn failed_rollback_propagates_the_error() -> Result<()> {
    let mut connection = Connection::open_in_memory()?;
    let transaction = connection.transaction()?;
    end_transaction(&transaction)?;
    assert!(matches!(transaction.rollback(), Err(Error::SqliteFailure(_, _))));
    assert!(connection.is_autocommit());
    Ok(())
}
