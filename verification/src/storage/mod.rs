//! Persistence: the tables, the stored form of each entity, and one
//! repository per entity. Nothing here holds a content rule.
//!
//! Every operation is one statement on the connection it is given and holds
//! no state of its own. A connection serves one caller at a time; callers
//! that run side by side share it behind a lock or open one each.

pub mod board_repository;
pub mod connection;
pub mod post_repository;
pub mod schema;
pub mod session_repository;
pub mod sqlite;
pub mod thread_repository;
pub mod user_repository;

use vstd::prelude::*;
use vstd::string::StringExecFns;

verus! {

/// The connection to the store that every repository works on.
pub type DbConnection = rusqlite::Connection;

/// Why a value cannot be written to a row or read back from one.
#[derive(Debug, Clone, Copy, PartialEq, Eq, Structural)]
pub enum DataFault {
    /// The row does not have the columns of its table.
    Shape,
    /// A column that holds an identifier does not hold the text of one.
    Identifier,
    /// A timestamp has no stored text, or a column does not hold one.
    Timestamp,
    /// The role column names no role.
    Role,
}

impl DataFault {
    /// The words for the fault.
    pub open spec fn text(self) -> Seq<char> {
        match self {
            DataFault::Shape => "wrong number of columns"@,
            DataFault::Identifier => "invalid identifier"@,
            DataFault::Timestamp => "invalid timestamp"@,
            DataFault::Role => "invalid role"@,
        }
    }

    /// Writes the words for the fault.
    pub fn to_string(&self) -> (text: String)
        ensures
            text@ == self.text(),
    {
        match self {
            DataFault::Shape => "wrong number of columns".to_owned(),
            DataFault::Identifier => "invalid identifier".to_owned(),
            DataFault::Timestamp => "invalid timestamp".to_owned(),
            DataFault::Role => "invalid role".to_owned(),
        }
    }
}

/// A failure of the storage layer.
#[derive(Debug)]
pub enum StorageError {
    /// The engine refused or failed: a constraint, the connection, the file.
    Database(rusqlite::Error),
    /// A value has no stored form, or a stored value is not well formed.
    Malformed(DataFault),
}

impl From<rusqlite::Error> for StorageError {
    fn from(e: rusqlite::Error) -> (res: StorageError) {
        StorageError::Database(e)
    }
}

impl vstd::std_specs::convert::FromSpecImpl<rusqlite::Error> for StorageError {
    open spec fn obeys_from_spec() -> bool {
        true
    }

    open spec fn from_spec(e: rusqlite::Error) -> StorageError {
        StorageError::Database(e)
    }
}

/// What writing a row gives for each answer of the engine: nothing to report
/// where the statement ran, however many rows it changed, and the engine's
/// error, as it came, where it did not.
pub fn written(answer: Result<usize, rusqlite::Error>) -> (res: Result<(), StorageError>)
    ensures
        res == match answer {
            Ok(_) => Ok::<(), StorageError>(()),
            Err(e) => Err(StorageError::Database(e)),
        },
{
    match answer {
        Ok(_) => Ok(()),
        Err(e) => Err(StorageError::from(e)),
    }
}

/// What reading rows gives for each answer of the engine: the rows as they
/// came, or the engine's error as it came.
pub fn fetched(answer: Result<Vec<Vec<String>>, rusqlite::Error>) -> (res: Result<
    Vec<Vec<String>>,
    StorageError,
>)
    ensures
        res == match answer {
            Ok(rows) => Ok::<Vec<Vec<String>>, StorageError>(rows),
            Err(e) => Err(StorageError::Database(e)),
        },
{
    match answer {
        Ok(rows) => Ok(rows),
        Err(e) => Err(StorageError::from(e)),
    }
}

impl StorageError {
    /// Whether `text` is a message of the error: for a fault of the data the
    /// words for it behind `Malformed data: `, for an error of the engine
    /// whatever the engine says behind `Database error: `.
    pub open spec fn has_message(self, text: Seq<char>) -> bool {
        match self {
            StorageError::Database(_) => "Database error: "@.is_prefix_of(text),
            StorageError::Malformed(fault) => text == "Malformed data: "@ + fault.text(),
        }
    }

    /// Writes the message of the error.
    pub fn to_string(&self) -> (text: String)
        ensures
            self.has_message(text@),
    {
        match self {
            StorageError::Database(e) => {
                let detail = sqlite::error_text(e);
                "Database error: ".to_owned().concat(detail.as_str())
            },
            StorageError::Malformed(fault) => {
                let detail = fault.to_string();
                "Malformed data: ".to_owned().concat(detail.as_str())
            },
        }
    }
}

} // verus!
