//! The boundary to the SQLite driver. Everything here is taken on trust:
//! Verus reads the contracts of these items and none of their bodies.
//!
//! Statements go in as text with positional parameters and rows come back as
//! plain cells, so that which statement runs, with which values, and how a
//! row is read are all decided in verified code.

use crate::cells::{cell_of, value_of, Cell, SqlParam};
use vstd::prelude::*;

verus! {

/// `rusqlite::Connection`, an open database handle. Opaque.
#[verifier::external_type_specification]
#[verifier::external_body]
pub struct ExConnection(rusqlite::Connection);

/// `rusqlite::Error`, whatever the driver reports. Opaque; `describe` gives
/// its text.
#[verifier::external_type_specification]
#[verifier::external_body]
pub struct ExDriverError(rusqlite::Error);

/// `rusqlite::Transaction`, an open transaction that borrows its connection
/// and rolls back when dropped uncommitted. Opaque.
#[verifier::external_type_specification]
#[verifier::external_body]
pub struct ExTransaction<'conn>(rusqlite::Transaction<'conn>);

/// `rusqlite::types::Value`, an owned dynamically typed SQL value, with its
/// five variants.
#[verifier::external_type_specification]
pub struct ExValue(rusqlite::types::Value);

/// Why reading a result set failed: before any row was produced, or while
/// stepping through the rows.
pub enum ReadFailure {
    Statement(rusqlite::Error),
    Row(rusqlite::Error),
}

/// `Connection::open_in_memory`: a connection to a new, empty in-memory
/// database, or the driver's error.
#[verifier::external_body]
pub(crate) fn open_in_memory() -> Result<rusqlite::Connection, rusqlite::Error> {
    rusqlite::Connection::open_in_memory()
}

/// `Connection::open`: a connection to the database file at `path`, created
/// if absent, or the driver's error.
#[verifier::external_body]
pub(crate) fn open_at(path: &str) -> Result<rusqlite::Connection, rusqlite::Error> {
    rusqlite::Connection::open(path)
}

/// `Connection::execute_batch`: runs the statements of `sql` in turn. Nothing
/// is claimed of what they do.
#[verifier::external_body]
pub(crate) fn execute_batch(conn: &rusqlite::Connection, sql: &str) -> Result<(), rusqlite::Error> {
    conn.execute_batch(sql)
}

/// `Connection::execute`: prepares `sql`, binds `params` in order and runs
/// it. On success the number is what the driver reports as rows changed,
/// inserted or deleted; nothing is claimed of it.
#[verifier::external_body]
pub(crate) fn execute(conn: &rusqlite::Connection, sql: &str, params: &Vec<SqlParam>) -> Result<
    usize,
    rusqlite::Error,
> {
    conn.execute(sql, rusqlite::params_from_iter(params.iter().map(value_of)))
}

/// `Connection::prepare` and `Statement::query_map`: runs the query and
/// hands out every row, each column read as a dynamically typed value.
/// Nothing is claimed of the rows.
#[verifier::external_body]
pub(crate) fn query_all(conn: &rusqlite::Connection, sql: &str, params: &Vec<SqlParam>) -> Result<
    Vec<Vec<Cell>>,
    ReadFailure,
> {
    let mut stmt = conn.prepare(sql).map_err(ReadFailure::Statement)?;
    let width = stmt.column_count();
    let rows = stmt.query_map(
        rusqlite::params_from_iter(params.iter().map(value_of)),
        |row| (0..width).map(|i| row.get(i).map(cell_of)).collect::<Result<Vec<Cell>, _>>(),
    ).map_err(ReadFailure::Statement)?;
    rows.collect::<Result<Vec<_>, _>>().map_err(ReadFailure::Row)
}

/// `Connection::query_row`: runs the query and hands out its first row, each
/// column read as a dynamically typed value; an error if there is no row.
/// Nothing is claimed of the row.
#[verifier::external_body]
pub(crate) fn query_row(conn: &rusqlite::Connection, sql: &str, params: &Vec<SqlParam>) -> Result<
    Vec<Cell>,
    rusqlite::Error,
> {
    conn.query_row(
        sql,
        rusqlite::params_from_iter(params.iter().map(value_of)),
        |row| (0..row.as_ref().column_count()).map(|i| row.get(i).map(cell_of)).collect(),
    )
}

/// `Connection::transaction`: begins a transaction on the connection.
#[verifier::external_body]
pub(crate) fn begin<'conn>(conn: &'conn mut rusqlite::Connection) -> Result<
    rusqlite::Transaction<'conn>,
    rusqlite::Error,
> {
    conn.transaction()
}

/// `Deref` of `rusqlite::Transaction`: the connection that the transaction
/// runs on.
#[verifier::external_body]
pub(crate) fn connection_of<'a, 'conn>(
    tx: &'a rusqlite::Transaction<'conn>,
) -> &'a rusqlite::Connection {
    tx
}

/// `Transaction::commit`: commits and ends the transaction.
#[verifier::external_body]
pub(crate) fn commit<'conn>(tx: rusqlite::Transaction<'conn>) -> Result<(), rusqlite::Error> {
    tx.commit()
}

/// `Display` of `rusqlite::Error`: the driver's message for the error.
#[verifier::external_body]
pub(crate) fn describe(e: &rusqlite::Error) -> String {
    e.to_string()
}

} // verus!
