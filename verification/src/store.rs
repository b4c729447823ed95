//! The trusted boundary to the SQLite store. Every item here is believed, not
//! proved: each declares or wraps one thing the `rusqlite` crate does. The
//! verified engine builds statement text and parameter lists itself and hands
//! them through these wrappers.

use vstd::prelude::*;
use crate::value::Scalar;

verus! {

#[verifier::external_type_specification]
#[verifier::external_body]
pub struct ExConnection(rusqlite::Connection);

#[verifier::external_type_specification]
#[verifier::external_body]
pub struct ExSqlValue(rusqlite::types::Value);

/// Relies on the store's value enum deriving `Clone` over plain data: the
/// clone equals the original.
pub assume_specification[ <rusqlite::types::Value as Clone>::clone ](
    v: &rusqlite::types::Value,
) -> (r: rusqlite::types::Value)
    ensures
        r == *v,
;

/// Relies on rusqlite::Connection::open_in_memory: a fresh, empty database.
#[verifier::external_body]
pub(crate) fn open_in_memory_connection() -> (r: Result<rusqlite::Connection, String>) {
    rusqlite::Connection::open_in_memory().map_err(|e| e.to_string())
}

/// Relies on the store's value enum having exactly the null, integer, real,
/// text and blob shapes; converts one scalar for binding. A real rides along
/// inside the `Real` variant untouched. The variant is not constrained to
/// the real shape — the library only ever wraps a real in it, and whatever
/// an outside caller wraps binds as that store value, which is safe: every
/// store value is bindable and never reaches statement text.
#[verifier::external_body]
pub(crate) fn to_sql_value(v: &Scalar) -> rusqlite::types::Value {
    match v {
        Scalar::Null => rusqlite::types::Value::Null,
        Scalar::Int(i) => rusqlite::types::Value::Integer(*i),
        Scalar::Real(rv) => rv.clone(),
        Scalar::Text(s) => rusqlite::types::Value::Text(s.clone()),
    }
}

/// Relies on the same enum for reading a cell back; a blob has no scalar
/// counterpart and reads as null, and a real is carried through opaquely.
#[verifier::external_body]
pub(crate) fn from_sql_value(v: rusqlite::types::Value) -> Scalar {
    match v {
        rusqlite::types::Value::Null => Scalar::Null,
        rusqlite::types::Value::Integer(i) => Scalar::Int(i),
        rusqlite::types::Value::Real(_) => Scalar::Real(v),
        rusqlite::types::Value::Text(s) => Scalar::Text(s),
        rusqlite::types::Value::Blob(_) => Scalar::Null,
    }
}

/// Relies on rusqlite::Connection::execute: runs one statement with the given
/// bound parameters and reports the number of rows changed, or the store's
/// error message.
#[verifier::external_body]
pub(crate) fn exec_sql(
    conn: &rusqlite::Connection,
    sql: &str,
    params: &Vec<Scalar>,
) -> (r: Result<usize, String>) {
    conn.execute(sql, rusqlite::params_from_iter(params.iter().map(to_sql_value)))
        .map_err(|e| e.to_string())
}

/// Relies on rusqlite::Connection::last_insert_rowid: the rowid of the most
/// recent successful insert on this connection.
#[verifier::external_body]
pub(crate) fn last_insert_rowid(conn: &rusqlite::Connection) -> (r: i64) {
    conn.last_insert_rowid()
}

/// Relies on rusqlite's prepare/query/Row::get: every returned row has one
/// scalar per requested column, in selection order; `Row::get` fails on an
/// index at or past the statement's column count, so success means each row
/// yielded exactly `ncols` cells.
#[verifier::external_body]
pub(crate) fn query_rows(
    conn: &rusqlite::Connection,
    sql: &str,
    params: &Vec<Scalar>,
    ncols: usize,
) -> (r: Result<Vec<Vec<Scalar>>, String>)
    ensures
        r matches Ok(rows) ==> forall|i: int| 0 <= i < rows@.len() ==> (#[trigger] rows@[i])@.len()
            == ncols,
{
    (|| -> rusqlite::Result<Vec<Vec<Scalar>>> {
        let mut stmt = conn.prepare(sql)?;
        let mut rows = stmt.query(rusqlite::params_from_iter(params.iter().map(to_sql_value)))?;
        let mut out = Vec::new();
        while let Some(row) = rows.next()? {
            let mut cells = Vec::new();
            for i in 0..ncols {
                cells.push(from_sql_value(row.get::<_, rusqlite::types::Value>(i)?));
            }
            out.push(cells);
        }
        Ok(out)
    })().map_err(|e| e.to_string())
}

/// Relies on rusqlite::Connection::query_row: the single cell of the single
/// row the statement yields, or the store's error message (also when the
/// statement yields no row).
#[verifier::external_body]
pub(crate) fn query_single_value(
    conn: &rusqlite::Connection,
    sql: &str,
    params: &Vec<Scalar>,
) -> (r: Result<Scalar, String>) {
    conn.query_row(sql, rusqlite::params_from_iter(params.iter().map(to_sql_value)), |row| {
        row.get::<_, rusqlite::types::Value>(0)
    }).map(from_sql_value).map_err(|e| e.to_string())
}

/// Relies on chrono::Utc::now: the current Unix timestamp in seconds. Nothing
/// is assumed of the value; it depends on the clock.
#[verifier::external_body]
pub(crate) fn now_timestamp() -> (r: i64) {
    chrono::Utc::now().timestamp()
}

/// A handle on the persistent store: one SQLite connection, against which the
/// table engine serializes all operations.
pub struct Database {
    pub(crate) conn: rusqlite::Connection,
}

impl Database {
    /// Wraps an already-open connection, so an embedding application may
    /// decide where the database lives.
    pub fn from_connection(conn: rusqlite::Connection) -> Database {
        Database { conn }
    }

    /// Opens a fresh in-memory database.
    pub fn open_in_memory() -> (r: Result<Database, crate::errors::Error>) {
        match open_in_memory_connection() {
            Ok(conn) => Ok(Database { conn }),
            Err(m) => Err(crate::errors::Error::StoreFailure(m)),
        }
    }
}

} // verus!
