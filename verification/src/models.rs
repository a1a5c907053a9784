//! The entities of the board: plain data, and the text form of a role.

use crate::ident::Id;
use crate::text::same_text;
use crate::timestamp::Timestamp;
use vstd::prelude::*;

verus! {

/// What a user may do.
#[derive(Debug, Clone, Copy, PartialEq, Eq, Structural)]
pub enum Role {
    User,
    Admin,
}

/// A stored text names no role.
#[derive(Debug, Clone, Copy, PartialEq, Eq, Structural)]
pub struct UnknownRole;

impl Role {
    /// The text under which a role is stored: `user` or `admin`.
    pub open spec fn text(self) -> Seq<char> {
        match self {
            Role::User => "user"@,
            Role::Admin => "admin"@,
        }
    }

    /// The role that a text names: exactly `user` or `admin`, nothing else.
    pub open spec fn from_text(text: Seq<char>) -> Option<Role> {
        if text == "user"@ {
            Some(Role::User)
        } else if text == "admin"@ {
            Some(Role::Admin)
        } else {
            None
        }
    }

    /// Writes the role as text.
    pub fn to_string(&self) -> (text: String)
        ensures
            text@ == self.text(),
    {
        match self {
            Role::User => "user".to_owned(),
            Role::Admin => "admin".to_owned(),
        }
    }

    /// Reads a role from text. The match is exact and case-sensitive.
    pub fn parse(text: &str) -> (role: Result<Role, UnknownRole>)
        ensures
            role == match Role::from_text(text@) {
                Some(r) => Ok::<Role, UnknownRole>(r),
                None => Err(UnknownRole),
            },
    {
        if same_text(text, "user") {
            Ok(Role::User)
        } else if same_text(text, "admin") {
            Ok(Role::Admin)
        } else {
            Err(UnknownRole)
        }
    }
}

impl std::str::FromStr for Role {
    type Err = UnknownRole;

    /// Reads a role from text, as `Role::parse` does.
    fn from_str(s: &str) -> (role: Result<Role, UnknownRole>)
        ensures
            role == match Role::from_text(s@) {
                Some(r) => Ok::<Role, UnknownRole>(r),
                None => Err(UnknownRole),
            },
    {
        Role::parse(s)
    }
}

/// Reading back the text of a role gives the role.
pub proof fn lemma_role_text_round_trip(role: Role)
    ensures
        Role::from_text(role.text()) == Some(role),
{
    reveal_strlit("user");
    reveal_strlit("admin");
    assert("user"@.len() == 4);
    assert("admin"@.len() == 5);
}

/// A discussion board.
#[derive(Debug, Clone)]
pub struct Board {
    pub id: Id,
    pub name: String,
    pub description: String,
    pub created_at: Timestamp,
}

/// What a board holds, its texts as sequences of characters.
pub struct BoardView {
    pub id: Id,
    pub name: Seq<char>,
    pub description: Seq<char>,
    pub created_at: Timestamp,
}

impl View for Board {
    type V = BoardView;

    open spec fn view(&self) -> BoardView {
        BoardView {
            id: self.id,
            name: self.name@,
            description: self.description@,
            created_at: self.created_at,
        }
    }
}

/// A thread of discussion inside a board.
#[derive(Debug, Clone)]
pub struct Thread {
    pub id: Id,
    pub board_id: Id,
    pub title: String,
    pub created_at: Timestamp,
}

/// What a thread holds, its title as a sequence of characters.
pub struct ThreadView {
    pub id: Id,
    pub board_id: Id,
    pub title: Seq<char>,
    pub created_at: Timestamp,
}

impl View for Thread {
    type V = ThreadView;

    open spec fn view(&self) -> ThreadView {
        ThreadView {
            id: self.id,
            board_id: self.board_id,
            title: self.title@,
            created_at: self.created_at,
        }
    }
}

/// A post inside a thread.
#[derive(Debug, Clone)]
pub struct Post {
    pub id: Id,
    pub thread_id: Id,
    pub content: String,
    pub created_at: Timestamp,
}

/// What a post holds, its content as a sequence of characters.
pub struct PostView {
    pub id: Id,
    pub thread_id: Id,
    pub content: Seq<char>,
    pub created_at: Timestamp,
}

impl View for Post {
    type V = PostView;

    open spec fn view(&self) -> PostView {
        PostView {
            id: self.id,
            thread_id: self.thread_id,
            content: self.content@,
            created_at: self.created_at,
        }
    }
}

/// A user of the board. The password is kept only as an opaque hash.
#[derive(Debug, Clone)]
pub struct User {
    pub id: Id,
    pub username: String,
    pub password_hash: String,
    pub role: Role,
}

/// What a user record holds, its texts as sequences of characters.
pub struct UserView {
    pub id: Id,
    pub username: Seq<char>,
    pub password_hash: Seq<char>,
    pub role: Role,
}

impl View for User {
    type V = UserView;

    open spec fn view(&self) -> UserView {
        UserView {
            id: self.id,
            username: self.username@,
            password_hash: self.password_hash@,
            role: self.role,
        }
    }
}

/// A login session: the token is the bearer credential of the user.
#[derive(Debug, Clone, Copy, PartialEq, Eq, Structural)]
pub struct Session {
    pub token: Id,
    pub user_id: Id,
    pub created_at: Timestamp,
}

} // verus!
