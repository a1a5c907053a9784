//! The layout of the store: five tables, every column `NOT NULL`, the name of
//! a board and of a user unique, and each child deleted with its parent.

use crate::storage::connection::ENFORCE_FOREIGN_KEYS;
use crate::storage::sqlite;
use crate::storage::DbConnection;
use vstd::prelude::*;

verus! {

/// The statements that create the tables where they do not exist yet.
pub const CREATE_TABLES: &'static str = "
CREATE TABLE IF NOT EXISTS boards (
    id TEXT NOT NULL PRIMARY KEY,
    name TEXT NOT NULL UNIQUE,
    description TEXT NOT NULL,
    created_at TEXT NOT NULL
);

CREATE TABLE IF NOT EXISTS threads (
    id TEXT NOT NULL PRIMARY KEY,
    board_id TEXT NOT NULL,
    title TEXT NOT NULL,
    created_at TEXT NOT NULL,
    FOREIGN KEY(board_id) REFERENCES boards(id) ON DELETE CASCADE
);

CREATE TABLE IF NOT EXISTS posts (
    id TEXT NOT NULL PRIMARY KEY,
    thread_id TEXT NOT NULL,
    content TEXT NOT NULL,
    created_at TEXT NOT NULL,
    FOREIGN KEY(thread_id) REFERENCES threads(id) ON DELETE CASCADE
);

CREATE TABLE IF NOT EXISTS users (
    id TEXT NOT NULL PRIMARY KEY,
    username TEXT NOT NULL UNIQUE,
    password_hash TEXT NOT NULL,
    role TEXT NOT NULL
);

CREATE TABLE IF NOT EXISTS sessions (
    token TEXT NOT NULL PRIMARY KEY,
    user_id TEXT NOT NULL,
    created_at TEXT NOT NULL,
    FOREIGN KEY(user_id) REFERENCES users(id) ON DELETE CASCADE
);
";

/// Makes the store ready: switches the enforcement of foreign keys on, on
/// this connection, and creates the tables that are not there yet. It can be
/// called at every start. An error of the engine is handed on as it came.
pub fn initialize_schema(conn: &DbConnection) -> Result<(), rusqlite::Error> {
    sqlite::execute_batch(conn, ENFORCE_FOREIGN_KEYS)?;
    sqlite::execute_batch(conn, CREATE_TABLES)
}

} // verus!
