//! The calls into `rusqlite`. What the engine answers depends on what the
//! database holds, so none of these calls promises a result.

use rusqlite::{Connection, Row};
use vstd::prelude::*;

verus! {

/// `rusqlite::Connection`, an open database. Nothing is known of what it
/// holds.
#[verifier::external_type_specification]
#[verifier::external_body]
pub struct ExConnection(rusqlite::Connection);

/// `rusqlite::Error`, the engine's error. It is carried, never looked into.
#[verifier::external_type_specification]
#[verifier::external_body]
pub struct ExError(rusqlite::Error);

/// `rusqlite::Row`, one row of a running query.
#[verifier::external_type_specification]
#[verifier::external_body]
pub struct ExRow<'stmt>(rusqlite::Row<'stmt>);

/// Calls `rusqlite::Connection::open` on the path.
#[verifier::external_body]
pub(crate) fn open(path: &str) -> Result<Connection, rusqlite::Error> {
    Connection::open(path)
}

/// Calls `rusqlite::Connection::execute_batch`: runs the statements of `sql`
/// one after the other.
#[verifier::external_body]
pub(crate) fn execute_batch(conn: &Connection, sql: &str) -> Result<(), rusqlite::Error> {
    conn.execute_batch(sql)
}

/// Calls `rusqlite::Connection::execute`: runs the one statement `sql` with
/// the texts of `params` bound to its parameters in order, and hands out the
/// number of rows it changed.
#[verifier::external_body]
pub(crate) fn execute(conn: &Connection, sql: &str, params: &Vec<String>) -> Result<
    usize,
    rusqlite::Error,
> {
    conn.execute(sql, rusqlite::params_from_iter(params.iter()))
}

/// Calls `to_string` on a `rusqlite::Error`: the engine's own words for it.
#[verifier::external_body]
pub(crate) fn error_text(e: &rusqlite::Error) -> String {
    e.to_string()
}

/// Calls `rusqlite::Row::get` for the text in the column at `index`.
#[verifier::external_body]
fn column_text(row: &Row<'_>, index: usize) -> Result<String, rusqlite::Error> {
    row.get(index)
}

/// Reads the first `columns` columns of a row as text, in order. The first
/// column that cannot be read as text ends the reading with its error; where
/// no column is asked for, nothing is read and nothing can fail.
pub(crate) fn read_cells(row: &Row<'_>, columns: usize) -> (res: Result<
    Vec<String>,
    rusqlite::Error,
>)
    ensures
        res matches Ok(cells) ==> cells.len() == columns,
        columns == 0 ==> res is Ok,
{
    let mut cells: Vec<String> = Vec::new();
    let mut index: usize = 0;
    while index < columns
        invariant
            index <= columns,
            cells.len() == index,
        decreases columns - index,
    {
        match column_text(row, index) {
            Ok(cell) => {
                cells.push(cell);
            },
            Err(e) => {
                return Err(e);
            },
        }
        index = index + 1;
    }
    Ok(cells)
}

/// Calls `rusqlite::Connection::prepare` and `rusqlite::Statement::query_map`:
/// runs the query `sql` with the texts of `params` bound to its parameters in
/// order, and hands out every row it yields, each read by `read_cells`.
///
/// Which rows come depends on the database. Each one that comes was read with
/// the given number of columns.
#[verifier::external_body]
pub(crate) fn query(conn: &Connection, sql: &str, params: &Vec<String>, columns: usize) -> (res:
    Result<Vec<Vec<String>>, rusqlite::Error>)
    ensures
        res matches Ok(rows) ==> forall|i: int|
            0 <= i < rows.len() ==> (#[trigger] rows[i]).len() == columns,
{
    let mut statement = conn.prepare(sql)?;
    let rows = statement.query_map(
        rusqlite::params_from_iter(params.iter()),
        |row| read_cells(row, columns),
    )?;
    rows.collect()
}

} // verus!
