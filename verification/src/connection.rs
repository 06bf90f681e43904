//! Where a query wrapper gets its connection from.

use vstd::prelude::*;
use crate::sqlite;

verus! {

/// Something that can lend the connection that queries run on: a
/// connection, owned or borrowed, or a transaction.
pub trait ConnectionSource {
    fn connection(&self) -> &rusqlite::Connection;
}

impl ConnectionSource for rusqlite::Connection {
    fn connection(&self) -> (conn: &rusqlite::Connection)
        ensures
            conn == self,
    {
        self
    }
}

impl<'a> ConnectionSource for &'a rusqlite::Connection {
    fn connection(&self) -> (conn: &rusqlite::Connection)
        ensures
            conn == *self,
    {
        *self
    }
}

impl<'a> ConnectionSource for &'a mut rusqlite::Connection {
    fn connection(&self) -> (conn: &rusqlite::Connection)
        ensures
            conn == *old(*self),
    {
        &**self
    }
}

/// The connection that rusqlite's `Deref` of `transaction` gives is
/// `connection`.
pub closed spec fn runs_on(transaction: &rusqlite::Transaction<'_>, connection: &rusqlite::Connection) -> bool {
    call_ensures(sqlite::transaction_connection, (transaction,), connection)
}

impl<'conn> ConnectionSource for rusqlite::Transaction<'conn> {
    fn connection(&self) -> (conn: &rusqlite::Connection)
        ensures
            runs_on(self, conn),
    {
        sqlite::transaction_connection(self)
    }
}

} // verus!
