//! The calls into rusqlite that the library makes, and what it relies on of
//! each. What a query returns depends on what the database holds, so these
//! promise nothing about contents.

use vstd::prelude::*;
use crate::rows::Cell;

verus! {

#[verifier::external_type_specification]
#[verifier::external_body]
pub struct ExConnection(rusqlite::Connection);

#[verifier::external_type_specification]
#[verifier::external_body]
pub struct ExSqliteError(rusqlite::Error);

#[verifier::external_type_specification]
#[verifier::external_body]
pub struct ExSqlValue(rusqlite::types::Value);

/// Relies on `rusqlite::Connection::open`: opens, or creates, the database
/// at `path`; it may fail.
#[verifier::external_body]
pub(crate) fn open_connection(path: &str) -> (r: Result<rusqlite::Connection, rusqlite::Error>) {
    rusqlite::Connection::open(path)
}

/// Relies on `rusqlite::Connection::execute` with `rusqlite::params_from_iter`:
/// runs one statement with `params` bound to its placeholders in order, and
/// returns the number of rows it changed; it may fail.
#[verifier::external_body]
pub(crate) fn execute_sql(
    conn: &rusqlite::Connection,
    sql: &str,
    params: Vec<rusqlite::types::Value>,
) -> (r: Result<usize, rusqlite::Error>) {
    conn.execute(sql, rusqlite::params_from_iter(params))
}

/// Relies on `rusqlite::Connection::prepare`, `rusqlite::Statement::query_map`
/// and `rusqlite::Row::get`: runs a query with `params` bound in order and
/// reads columns `0..width` of each row, in the order the query yields the
/// rows; it may fail.
#[verifier::external_body]
pub(crate) fn query_values(
    conn: &rusqlite::Connection,
    sql: &str,
    params: Vec<rusqlite::types::Value>,
    width: usize,
) -> (r: Result<Vec<Vec<rusqlite::types::Value>>, rusqlite::Error>)
    ensures
        r matches Ok(rows) ==> forall|i: int|
            0 <= i < rows@.len() ==> (#[trigger] rows@[i])@.len() == width,
{
    let mut stmt = conn.prepare(sql)?;
    let rows = stmt.query_map(
        rusqlite::params_from_iter(params),
        |row| (0..width).map(|i| row.get(i)).collect(),
    )?;
    rows.collect()
}

/// Relies on `From<i64>` for `rusqlite::types::Value`: an integer parameter.
#[verifier::external_body]
pub(crate) fn integer_value(v: i64) -> (r: rusqlite::types::Value) {
    rusqlite::types::Value::from(v)
}

/// Relies on `From<Option<String>>` for `rusqlite::types::Value`: a text
/// parameter, or `NULL` for `None`.
#[verifier::external_body]
pub(crate) fn text_value(s: Option<String>) -> (r: rusqlite::types::Value) {
    rusqlite::types::Value::from(s)
}

/// Relies on the variants of `rusqlite::types::Value`: the column as the
/// library reads it, a real number or a blob being `Other`.
#[verifier::external_body]
pub(crate) fn cell_of(v: &rusqlite::types::Value) -> (r: Cell) {
    match v {
        rusqlite::types::Value::Null => Cell::Null,
        rusqlite::types::Value::Integer(n) => Cell::Integer(*n),
        rusqlite::types::Value::Real(_) => Cell::Other,
        rusqlite::types::Value::Text(s) => Cell::Text(s.clone()),
        rusqlite::types::Value::Blob(_) => Cell::Other,
    }
}

/// Relies on `Display` for `rusqlite::Error`: a description of the failure.
#[verifier::external_body]
pub(crate) fn error_text(e: &rusqlite::Error) -> (r: String) {
    e.to_string()
}

/// Columns `0..width` of each row, as cells, rows in their order.
pub(crate) fn cells_of(rows: &Vec<Vec<rusqlite::types::Value>>, width: usize) -> (r: Vec<Vec<Cell>>)
    requires
        forall|i: int| 0 <= i < rows@.len() ==> (#[trigger] rows@[i])@.len() == width,
    ensures
        r@.len() == rows@.len(),
        forall|i: int| 0 <= i < r@.len() ==> (#[trigger] r@[i])@.len() == width,
{
    let mut out: Vec<Vec<Cell>> = Vec::new();
    let mut i: usize = 0;
    while i < rows.len()
        invariant
            i <= rows@.len(),
            out@.len() == i,
            forall|k: int| 0 <= k < rows@.len() ==> (#[trigger] rows@[k])@.len() == width,
            forall|k: int| 0 <= k < i ==> (#[trigger] out@[k])@.len() == width,
        decreases rows@.len() - i,
    {
        let row = &rows[i];
        let mut cells: Vec<Cell> = Vec::new();
        let mut j: usize = 0;
        while j < row.len()
            invariant
                j <= row@.len(),
                cells@.len() == j,
            decreases row@.len() - j,
        {
            cells.push(cell_of(&row[j]));
            j += 1;
        }
        out.push(cells);
        i += 1;
    }
    out
}

} // verus!
