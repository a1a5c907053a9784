//! The repository of users: table `users`, columns `id`, `username`,
//! `password_hash`, `role`.

use crate::ident::Id;
use crate::models::{lemma_role_text_round_trip, Role, User, UserView};
use crate::storage::sqlite;
use crate::storage::{fetched, written, DataFault, DbConnection, StorageError};
use vstd::prelude::*;

verus! {

/// The cells of the row that stores a user, in column order.
pub open spec fn user_cells(user: UserView) -> Seq<Seq<char>> {
    seq![user.id.text(), user.username, user.password_hash, user.role.text()]
}

/// The user that the cells of a row stand for, or what is wrong with them:
/// the number of cells first, then the identifier, then the role.
pub open spec fn user_from_cells(cells: Seq<Seq<char>>) -> Result<UserView, DataFault> {
    if cells.len() != 4 {
        Err(DataFault::Shape)
    } else {
        match (Id::from_text(cells[0]), Role::from_text(cells[3])) {
            (None, _) => Err(DataFault::Identifier),
            (Some(_), None) => Err(DataFault::Role),
            (Some(id), Some(role)) => Ok(
                UserView { id, username: cells[1], password_hash: cells[2], role },
            ),
        }
    }
}

/// What a lookup finds in the rows that matched: nothing where there is no
/// row, else the user that the first row stands for, or the fault of that row.
pub open spec fn first_user(rows: Seq<Seq<Seq<char>>>) -> Result<Option<UserView>, DataFault> {
    if rows.len() == 0 {
        Ok(None)
    } else {
        match user_from_cells(rows[0]) {
            Ok(user) => Ok(Some(user)),
            Err(fault) => Err(fault),
        }
    }
}

/// Whether some row stands for this user.
pub open spec fn is_stored_user(user: UserView) -> bool {
    exists|cells: Seq<Seq<char>>| user_from_cells(cells) == Ok::<UserView, DataFault>(user)
}

/// Writes a user as the row that stores it. The row reads back, by
/// `user_from_row`, to the same user.
pub fn user_to_row(user: &User) -> (row: Vec<String>)
    ensures
        row.deep_view() == user_cells(user@),
        user_from_cells(row.deep_view()) == Ok::<UserView, DataFault>(user@),
{
    let mut row: Vec<String> = Vec::new();
    row.push(user.id.to_text());
    row.push(user.username.clone());
    row.push(user.password_hash.clone());
    row.push(user.role.to_string());
    proof {
        lemma_role_text_round_trip(user.role);
        assert(row.deep_view() =~= user_cells(user@));
    }
    row
}

/// Reads a user from the cells of a stored row. A cell that is not well
/// formed is an error, never replaced by a value made up here.
pub fn user_from_row(row: &Vec<String>) -> (res: Result<User, StorageError>)
    ensures
        match user_from_cells(row.deep_view()) {
            Ok(user) => res matches Ok(u) && u@ == user,
            Err(fault) => res matches Err(StorageError::Malformed(f)) && f == fault,
        },
{
    if row.len() != 4 {
        return Err(StorageError::Malformed(DataFault::Shape));
    }
    let id = match Id::parse(row[0].as_str()) {
        Some(id) => id,
        None => {
            return Err(StorageError::Malformed(DataFault::Identifier));
        },
    };
    let role = match Role::parse(row[3].as_str()) {
        Ok(role) => role,
        Err(_) => {
            return Err(StorageError::Malformed(DataFault::Role));
        },
    };
    Ok(User { id, username: row[1].clone(), password_hash: row[2].clone(), role })
}

/// Reads what a lookup found from the rows that matched.
pub fn user_from_rows(rows: &Vec<Vec<String>>) -> (res: Result<Option<User>, StorageError>)
    ensures
        match first_user(rows.deep_view()) {
            Ok(Some(user)) => res matches Ok(Some(u)) && u@ == user,
            Ok(None) => res matches Ok(None),
            Err(fault) => res matches Err(StorageError::Malformed(f)) && f == fault,
        },
{
    if rows.len() == 0 {
        return Ok(None);
    }
    assert(rows.deep_view()[0] == rows[0].deep_view());
    match user_from_row(&rows[0]) {
        Ok(user) => Ok(Some(user)),
        Err(e) => Err(e),
    }
}

/// The statement that stores a user.
pub const INSERT_USER: &'static str =
    "INSERT INTO users (id, username, password_hash, role) VALUES (?1, ?2, ?3, ?4)";

/// The query that looks a user up by name.
pub const SELECT_USER_BY_NAME: &'static str =
    "SELECT id, username, password_hash, role FROM users WHERE username = ?1";

/// The repository of users on one connection.
pub struct UserRepository<'a> {
    pub conn: &'a DbConnection,
}

impl<'a> UserRepository<'a> {
    /// The repository that works on the given connection.
    pub fn new(conn: &'a DbConnection) -> (repository: Self)
        ensures
            repository.conn == conn,
    {
        UserRepository { conn }
    }

    /// Stores a user as one new row.
    ///
    /// Every user has a row, so the engine alone decides: it refuses a second
    /// user of the same name or identifier, and its error is handed on as it
    /// came.
    pub fn create(&self, user: &User) -> (res: Result<(), StorageError>)
        ensures
            !(res matches Err(StorageError::Malformed(_))),
    {
        let row = user_to_row(user);
        written(sqlite::execute(self.conn, INSERT_USER, &row))
    }

    /// Looks a user up by name.
    ///
    /// No matching row is `Ok(None)`, not an error. A matching row that
    /// stands for no user is an error.
    pub fn find_by_username(&self, username: &str) -> (res: Result<Option<User>, StorageError>)
        ensures
            match res {
                Ok(Some(user)) => is_stored_user(user@),
                Ok(None) => true,
                Err(StorageError::Malformed(fault)) => fault != DataFault::Shape,
                Err(StorageError::Database(_)) => true,
            },
    {
        let mut params: Vec<String> = Vec::new();
        params.push(username.to_owned());
        let rows = match fetched(sqlite::query(self.conn, SELECT_USER_BY_NAME, &params, 4)) {
            Ok(rows) => rows,
            Err(e) => {
                return Err(e);
            },
        };
        proof {
            if rows.len() > 0 {
                assert(rows.deep_view()[0].len() == rows[0].len());
            }
        }
        user_from_rows(&rows)
    }
}

} // verus!
