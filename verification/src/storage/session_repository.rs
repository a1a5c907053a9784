//! The repository of sessions: table `sessions`, columns `token`, `user_id`,
//! `created_at`. The token is the key by which a session is found.

use crate::ident::Id;
use crate::models::Session;
use crate::storage::sqlite;
use crate::storage::{fetched, written, DataFault, DbConnection, StorageError};
use crate::timestamp::Timestamp;
use vstd::prelude::*;

verus! {

/// The cells of the row that stores a session, in column order; `None` where
/// the time of creation has no stored text.
pub open spec fn session_cells(session: Session) -> Option<Seq<Seq<char>>> {
    match session.created_at.text() {
        Some(created_at) => Some(seq![session.token.text(), session.user_id.text(), created_at]),
        None => None,
    }
}

/// The session that the cells of a row stand for, or what is wrong with them:
/// the number of cells first, then the two identifiers, then the timestamp.
pub open spec fn session_from_cells(cells: Seq<Seq<char>>) -> Result<Session, DataFault> {
    if cells.len() != 3 {
        Err(DataFault::Shape)
    } else {
        match (Id::from_text(cells[0]), Id::from_text(cells[1]), Timestamp::from_text(cells[2])) {
            (Some(token), Some(user_id), Some(created_at)) => Ok(
                Session { token, user_id, created_at },
            ),
            (Some(_), Some(_), None) => Err(DataFault::Timestamp),
            _ => Err(DataFault::Identifier),
        }
    }
}

/// What a lookup finds in the rows that matched: nothing where there is no
/// row, else the session that the first row stands for, or the fault of that
/// row.
pub open spec fn first_session(rows: Seq<Seq<Seq<char>>>) -> Result<Option<Session>, DataFault> {
    if rows.len() == 0 {
        Ok(None)
    } else {
        match session_from_cells(rows[0]) {
            Ok(session) => Ok(Some(session)),
            Err(fault) => Err(fault),
        }
    }
}

/// Whether some row stands for this session.
pub open spec fn is_stored_session(session: Session) -> bool {
    exists|cells: Seq<Seq<char>>| session_from_cells(cells) == Ok::<Session, DataFault>(session)
}

/// Writes a session as the row that stores it.
///
/// The row reads back, by `session_from_row`, to the same session. The one
/// session that has no row is one whose time of creation has no stored text.
pub fn session_to_row(session: &Session) -> (res: Result<Vec<String>, StorageError>)
    ensures
        match session_cells(*session) {
            Some(cells) => res matches Ok(row) && row.deep_view() == cells,
            None => res matches Err(StorageError::Malformed(DataFault::Timestamp)),
        },
        res matches Ok(row) ==> session_from_cells(row.deep_view()) == Ok::<Session, DataFault>(
            *session,
        ),
{
    match session.created_at.to_rfc3339() {
        None => Err(StorageError::Malformed(DataFault::Timestamp)),
        Some(created_at) => {
            let mut row: Vec<String> = Vec::new();
            row.push(session.token.to_text());
            row.push(session.user_id.to_text());
            row.push(created_at);
            assert(row.deep_view() =~= session_cells(*session)->Some_0);
            Ok(row)
        },
    }
}

/// Reads a session from the cells of a stored row. A cell that is not well
/// formed is an error, never replaced by a value made up here.
pub fn session_from_row(row: &Vec<String>) -> (res: Result<Session, StorageError>)
    ensures
        match session_from_cells(row.deep_view()) {
            Ok(session) => res matches Ok(s) && s == session,
            Err(fault) => res matches Err(StorageError::Malformed(f)) && f == fault,
        },
{
    if row.len() != 3 {
        return Err(StorageError::Malformed(DataFault::Shape));
    }
    let token = match Id::parse(row[0].as_str()) {
        Some(token) => token,
        None => {
            return Err(StorageError::Malformed(DataFault::Identifier));
        },
    };
    let user_id = match Id::parse(row[1].as_str()) {
        Some(user_id) => user_id,
        None => {
            return Err(StorageError::Malformed(DataFault::Identifier));
        },
    };
    let created_at = match Timestamp::parse_rfc3339(row[2].as_str()) {
        Some(created_at) => created_at,
        None => {
            return Err(StorageError::Malformed(DataFault::Timestamp));
        },
    };
    Ok(Session { token, user_id, created_at })
}

/// Reads what a lookup found from the rows that matched.
pub fn session_from_rows(rows: &Vec<Vec<String>>) -> (res: Result<Option<Session>, StorageError>)
    ensures
        match first_session(rows.deep_view()) {
            Ok(found) => res matches Ok(f) && f == found,
            Err(fault) => res matches Err(StorageError::Malformed(f)) && f == fault,
        },
{
    if rows.len() == 0 {
        return Ok(None);
    }
    assert(rows.deep_view()[0] == rows[0].deep_view());
    match session_from_row(&rows[0]) {
        Ok(session) => Ok(Some(session)),
        Err(e) => Err(e),
    }
}

/// The statement that stores a session.
pub const INSERT_SESSION: &'static str =
    "INSERT INTO sessions (token, user_id, created_at) VALUES (?1, ?2, ?3)";

/// The query that looks a session up by its token.
pub const SELECT_SESSION_BY_TOKEN: &'static str =
    "SELECT token, user_id, created_at FROM sessions WHERE token = ?1";

/// The repository of sessions on one connection.
pub struct SessionRepository<'a> {
    pub conn: &'a DbConnection,
}

impl<'a> SessionRepository<'a> {
    /// The repository that works on the given connection.
    pub fn new(conn: &'a DbConnection) -> (repository: Self)
        ensures
            repository.conn == conn,
    {
        SessionRepository { conn }
    }

    /// Stores a session as one new row.
    ///
    /// A session whose time of creation has no stored text is refused before
    /// the engine is asked. Otherwise the engine decides: it refuses a session
    /// whose user does not exist or whose token is taken, and its error is
    /// handed on as it came.
    pub fn create(&self, session: &Session) -> (res: Result<(), StorageError>)
        ensures
            session_cells(*session) is None ==> res matches Err(
                StorageError::Malformed(DataFault::Timestamp),
            ),
            session_cells(*session) is Some ==> !(res matches Err(StorageError::Malformed(_))),
    {
        let row = session_to_row(session)?;
        written(sqlite::execute(self.conn, INSERT_SESSION, &row))
    }

    /// Looks a session up by its token.
    ///
    /// No matching row is `Ok(None)`, not an error: the session is valid for
    /// as long as its row is there. A matching row that stands for no session
    /// is an error.
    pub fn find(&self, token: &Id) -> (res: Result<Option<Session>, StorageError>)
        ensures
            match res {
                Ok(Some(session)) => is_stored_session(session),
                Ok(None) => true,
                Err(StorageError::Malformed(fault)) => fault != DataFault::Shape,
                Err(StorageError::Database(_)) => true,
            },
    {
        let mut params: Vec<String> = Vec::new();
        params.push(token.to_text());
        let rows = match fetched(sqlite::query(self.conn, SELECT_SESSION_BY_TOKEN, &params, 3)) {
            Ok(rows) => rows,
            Err(e) => {
                return Err(e);
            },
        };
        proof {
            if rows.len() > 0 {
                assert(rows.deep_view()[0].len() == rows[0].len());
            }
        }
        session_from_rows(&rows)
    }
}

} // verus!
