//! Opening the store. A connection leaves here with foreign keys enforced:
//! without that, deleting a parent would leave its children behind.

use crate::storage::sqlite;
use crate::storage::DbConnection;
use vstd::prelude::*;

verus! {

/// The statement that switches the enforcement of foreign keys on.
pub const ENFORCE_FOREIGN_KEYS: &'static str = "PRAGMA foreign_keys = ON;";

/// Opens the database at the path and switches the enforcement of foreign
/// keys on. An error of either step is handed on as it came.
pub fn create_connection(path: &str) -> Result<DbConnection, rusqlite::Error> {
    let conn = sqlite::open(path)?;
    sqlite::execute_batch(&conn, ENFORCE_FOREIGN_KEYS)?;
    Ok(conn)
}

} // verus!
