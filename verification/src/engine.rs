//! The trusted boundary to the embedded engine (rusqlite): connection
//! opening, statement preparation, and the walk over result rows. Verus
//! believes the contracts in this file; everything downstream of them is
//! verified.
//!
//! The crate's error policy is split on purpose: opening a connection
//! reports engine failures as error values, while anything that goes wrong
//! while running a query (bad SQL, a read failure, an unreadable cell) is
//! fatal and panics on the spot.

use vstd::prelude::*;
use crate::value::CellValue;

verus! {

/// The engine's connection handle (rusqlite::Connection), opaque here.
#[verifier::external_type_specification]
#[verifier::external_body]
pub struct ExConnection(rusqlite::Connection);

/// The engine's error type (rusqlite::Error), opaque here.
#[verifier::external_type_specification]
#[verifier::external_body]
pub struct ExError(rusqlite::Error);

/// The engine's prepared statement (rusqlite::Statement), opaque here.
#[verifier::external_type_specification]
#[verifier::external_body]
pub struct ExStatement<'conn>(rusqlite::Statement<'conn>);

/// The engine's dynamically typed cell value (rusqlite::types::Value),
/// opaque here.
#[verifier::external_type_specification]
#[verifier::external_body]
pub struct ExValue(rusqlite::types::Value);

/// Relies on rusqlite's Connection::open: opens, or creates, the file-backed
/// database at `dbpath`; a failure comes back as an error value.
#[verifier::external_body]
pub fn open(dbpath: &str) -> Result<rusqlite::Connection, rusqlite::Error> {
    rusqlite::Connection::open(dbpath)
}

/// Relies on rusqlite's Connection::open_in_memory: every call opens its own
/// private in-memory database, so two connections opened this way never
/// share data. The label plays no part in the call; a failure comes back as
/// an error value.
#[verifier::external_body]
pub fn open_in_memory(dbpath: &str) -> Result<rusqlite::Connection, rusqlite::Error> {
    let _ = dbpath;
    rusqlite::Connection::open_in_memory()
}

/// Relies on rusqlite's Connection::prepare. A failed preparation (bad SQL,
/// a missing table) is fatal under the crate's error policy: this call
/// panics rather than hand back an error.
#[verifier::external_body]
pub(crate) fn prepare_stmt<'conn>(conn: &'conn rusqlite::Connection, query: &str) -> rusqlite::Statement<'conn> {
    conn.prepare(query).unwrap()
}

/// Relies on rusqlite's Statement::column_names: the result column names in
/// positional order, one per result column.
#[verifier::external_body]
pub(crate) fn column_names(stmt: &rusqlite::Statement) -> Vec<String> {
    stmt.column_names().into_iter().map(|s| s.to_string()).collect()
}

/// Relies on rusqlite's Statement::query, Rows::next and Row::get: they walk
/// the result rows, and each row yields one engine value per column
/// position below `ncols`. Rows lends each Row out of its own cursor, so
/// the three calls cannot be parted into separate wrappers; this one drains
/// the whole result. Any failure here is fatal under the crate's error
/// policy.
#[verifier::external_body]
pub(crate) fn drain_rows(stmt: &mut rusqlite::Statement, ncols: usize) -> (out: Vec<Vec<rusqlite::types::Value>>)
    ensures
        forall|i: int| 0 <= i < out@.len() ==> (#[trigger] out@[i])@.len() == ncols,
{
    let mut rows = stmt.query([]).unwrap();
    let mut out: Vec<Vec<rusqlite::types::Value>> = Vec::new();
    while let Some(row) = rows.next().unwrap() {
        let mut vals: Vec<rusqlite::types::Value> = Vec::new();
        for i in 0..ncols {
            vals.push(row.get::<usize, rusqlite::types::Value>(i).unwrap());
        }
        out.push(vals);
    }
    out
}

/// Relies on rusqlite's Value: its five variants carry a null, an i64, an
/// f64, a String, and a Vec<u8>. Each variant is moved to the cell variant
/// of the same meaning; the real's float is turned into its default text
/// here, at the boundary.
#[verifier::external_body]
pub(crate) fn cell_of_value(v: &rusqlite::types::Value) -> CellValue {
    match v {
        rusqlite::types::Value::Null => CellValue::Null,
        rusqlite::types::Value::Integer(i) => CellValue::Integer(*i),
        rusqlite::types::Value::Real(r) => CellValue::Real(r.to_string()),
        rusqlite::types::Value::Text(s) => CellValue::Text(s.clone()),
        rusqlite::types::Value::Blob(b) => CellValue::Blob(b.clone()),
    }
}

} // verus!
