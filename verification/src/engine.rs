//! The database layer: the calls into `rusqlite`. Nothing in this file is
//! proved. What a statement does to a database depends on the file behind
//! the connection, on its schema and on whoever else writes to it, so the
//! calls that run statements promise nothing of their results.

use vstd::prelude::*;
use rusqlite::Connection;
use rusqlite::OptionalExtension;
use std::path::PathBuf;
use crate::error::Failure;

verus! {

/// `rusqlite::Connection`, an open database.
#[verifier::external_type_specification]
#[verifier::external_body]
pub struct ExConnection(rusqlite::Connection);

/// `rusqlite::Error`, whatever a call into the database layer fails with.
#[verifier::external_type_specification]
#[verifier::external_body]
pub struct ExError(rusqlite::Error);

/// `Connection::open`: opens the database that `path` names, creating the
/// file if there is none. SQLite may read `path` as the name of a file, as
/// `:memory:`, as the empty name of a temporary database or as a `file:`
/// URI. Nothing is claimed of the connection that comes back.
#[verifier::external_body]
pub(crate) fn open_connection(path: &PathBuf) -> (r: Result<Connection, rusqlite::Error>) {
    Connection::open(path)
}

/// `Connection::execute` with `params_from_iter`: runs one statement with
/// `args` bound to its parameters in order, as text, and gives the number of
/// rows that it changed.
#[verifier::external_body]
pub(crate) fn execute(conn: &Connection, sql: &str, args: &Vec<String>) -> (r: Result<
    usize,
    rusqlite::Error,
>) {
    conn.execute(sql, rusqlite::params_from_iter(args.iter()))
}

/// `Connection::prepare`, `Statement::query_row` with `params_from_iter` and
/// `Row::get` on the first column, and `OptionalExtension::optional`: the
/// first column of the first row of the answer as text, or `None` where the
/// answer has no row.
#[verifier::external_body]
pub(crate) fn query_value(conn: &Connection, sql: &str, args: &Vec<String>) -> (r: Result<
    Option<String>,
    rusqlite::Error,
>) {
    let mut statement = conn.prepare(sql)?;
    statement.query_row(rusqlite::params_from_iter(args.iter()), |row| row.get(0)).optional()
}

/// `Connection::prepare` and `Statement::query_map` with `params_from_iter`
/// and `Row::get` on the first two columns, collected: the first two columns
/// of every row of the answer as a pair of texts, in the order of the answer.
#[verifier::external_body]
pub(crate) fn query_pairs(conn: &Connection, sql: &str, args: &Vec<String>) -> (r: Result<
    Vec<(String, String)>,
    rusqlite::Error,
>) {
    let mut statement = conn.prepare(sql)?;
    let rows = statement.query_map(
        rusqlite::params_from_iter(args.iter()),
        |row| Ok((row.get(0)?, row.get(1)?)),
    )?;
    rows.collect()
}

/// Tells the variants of `rusqlite::Error` apart, as far as the store does.
#[verifier::external_body]
pub(crate) fn failure_of(error: &rusqlite::Error) -> (shape: Failure) {
    match error {
        rusqlite::Error::SqliteFailure(cause, _) => Failure::Engine { code: cause.extended_code },
        rusqlite::Error::InvalidColumnType(..) => Failure::ColumnType,
        rusqlite::Error::FromSqlConversionFailure(..) => Failure::Conversion,
        rusqlite::Error::IntegralValueOutOfRange(..) => Failure::OutOfRange,
        rusqlite::Error::Utf8Error(_) => Failure::Utf8,
        _ => Failure::Other,
    }
}

} // verus!
