//! The calls into SQLite. Nothing here is proved: each function states what
//! the `rusqlite` call it makes is relied on for, and no more.

use vstd::prelude::*;
use rusqlite::types::Value;
use rusqlite::{Connection, OptionalExtension, Transaction};

verus! {

/// `rusqlite::Connection`: a connection to one database, opaque here.
#[verifier::external_type_specification]
#[verifier::external_body]
pub struct ExConnection(rusqlite::Connection);

/// `rusqlite::Transaction`: a transaction that is under way, opaque here.
#[verifier::external_type_specification]
#[verifier::external_body]
pub struct ExTransaction<'conn>(rusqlite::Transaction<'conn>);

/// `rusqlite::Error`: why a call failed, opaque here.
#[verifier::external_type_specification]
#[verifier::external_body]
pub struct ExSqliteError(rusqlite::Error);

/// `rusqlite::types::Value`: a value bound to a statement, with the variants
/// that the crate declares.
#[verifier::external_type_specification]
pub struct ExValue(rusqlite::types::Value);

/// One row of the lookup of a tweet by its id, column by column.
#[derive(Debug)]
pub struct StoredTweet {
    pub parent_twitter_id: i64,
    pub ts: i64,
    pub user_twitter_id: i64,
    pub screen_name: String,
    pub name: String,
    pub content: String,
    pub digest: String,
}

/// `Connection::open`: opens the database at `path`, creating it where there
/// is none. Nothing is claimed of the outcome.
#[verifier::external_body]
pub(crate) fn open_connection(path: &str) -> (opened: Result<Connection, rusqlite::Error>) {
    Connection::open(path)
}

/// `Connection::execute_batch`: runs the statements of `sql` in turn. Nothing
/// is claimed of the outcome.
#[verifier::external_body]
pub(crate) fn run_batch(connection: &Connection, sql: &str) -> (done: Result<(), rusqlite::Error>) {
    connection.execute_batch(sql)
}

/// `Connection::execute` with the parameters bound in order: runs one
/// statement and returns the number of rows it changed. Nothing is claimed of
/// the outcome.
#[verifier::external_body]
pub(crate) fn run_statement(connection: &Connection, sql: &str, params: &Vec<Value>) -> (changed:
    Result<usize, rusqlite::Error>) {
    connection.execute(sql, rusqlite::params_from_iter(params.iter()))
}

/// `Connection::query_row` and `OptionalExtension::optional`: the first
/// column of the first row that the query gives, read as an integer, or
/// `None` where it gives no row. Nothing is claimed of the outcome.
#[verifier::external_body]
pub(crate) fn query_id(connection: &Connection, sql: &str, params: &Vec<Value>) -> (found: Result<
    Option<i64>,
    rusqlite::Error,
>) {
    connection.query_row(sql, rusqlite::params_from_iter(params.iter()), |row| row.get(0)).optional()
}

/// `Connection::query_row` and `OptionalExtension::optional`: the first row
/// that the query gives, its seven columns read in order, or `None` where it
/// gives no row. Nothing is claimed of the outcome.
#[verifier::external_body]
pub(crate) fn query_tweet(connection: &Connection, sql: &str, params: &Vec<Value>) -> (found:
    Result<Option<StoredTweet>, rusqlite::Error>) {
    let bound = rusqlite::params_from_iter(params.iter());
    connection.query_row(sql, bound, |row| {
        let (parent_twitter_id, ts, user_twitter_id) = (row.get(0)?, row.get(1)?, row.get(2)?);
        let (screen_name, name) = (row.get(3)?, row.get(4)?);
        let (content, digest) = (row.get(5)?, row.get(6)?);
        Ok(StoredTweet { parent_twitter_id, ts, user_twitter_id, screen_name, name, content, digest })
    }).optional()
}

/// `Connection::last_insert_rowid`: the row id of the latest insert that
/// succeeded on this connection. Nothing is claimed of its value.
#[verifier::external_body]
pub(crate) fn last_row_id(connection: &Connection) -> (id: i64) {
    connection.last_insert_rowid()
}

/// `Connection::unchecked_transaction`: begins a transaction, which is rolled
/// back when the value is dropped without a commit. Nothing is claimed of the
/// outcome.
#[verifier::external_body]
pub(crate) fn begin<'conn>(connection: &'conn Connection) -> (started: Result<
    Transaction<'conn>,
    rusqlite::Error,
>) {
    connection.unchecked_transaction()
}

/// `Transaction::commit`. Nothing is claimed of the outcome.
#[verifier::external_body]
pub(crate) fn commit<'conn>(transaction: Transaction<'conn>) -> (done: Result<(), rusqlite::Error>) {
    transaction.commit()
}

/// `Transaction::rollback`. Nothing is claimed of the outcome.
#[verifier::external_body]
pub(crate) fn rollback<'conn>(transaction: Transaction<'conn>) -> (done: Result<
    (),
    rusqlite::Error,
>) {
    transaction.rollback()
}

} // verus!
