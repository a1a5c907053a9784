//! The service layer: the content rules. It validates the text it is given,
//! assigns identity and time of creation, and hands the entity to its
//! repository. Whether the parent of an entity exists is the store's to say.

use crate::ident::Id;
use crate::models::{Board, Post, Thread};
use crate::storage::{board_repository, post_repository, thread_repository};
use crate::storage::{DataFault, DbConnection, StorageError};
use crate::text::{blank, is_blank};
use crate::timestamp::Timestamp;
use vstd::prelude::*;
use vstd::string::StringExecFns;

verus! {

/// A failure of a service operation: bad input, or a fault of the store.
#[derive(Debug)]
pub enum ServiceError {
    /// The input breaks a content rule; the text says which.
    Validation(String),
    /// The storage layer failed; its error is carried as it came.
    Storage(StorageError),
}

impl From<StorageError> for ServiceError {
    fn from(e: StorageError) -> (res: ServiceError) {
        ServiceError::Storage(e)
    }
}

impl vstd::std_specs::convert::FromSpecImpl<StorageError> for ServiceError {
    open spec fn obeys_from_spec() -> bool {
        true
    }

    open spec fn from_spec(e: StorageError) -> ServiceError {
        ServiceError::Storage(e)
    }
}

impl ServiceError {
    /// Whether `text` is a message of the error: the reason behind
    /// `Validation error: `, or a message of the storage error behind
    /// `Storage error: `.
    pub open spec fn has_message(self, text: Seq<char>) -> bool {
        match self {
            ServiceError::Validation(reason) => text == "Validation error: "@ + reason@,
            ServiceError::Storage(e) => exists|detail: Seq<char>|
                e.has_message(detail) && text == "Storage error: "@ + detail,
        }
    }

    /// Writes the message of the error.
    pub fn to_string(&self) -> (text: String)
        ensures
            self.has_message(text@),
    {
        match self {
            ServiceError::Validation(reason) => "Validation error: ".to_owned().concat(
                reason.as_str(),
            ),
            ServiceError::Storage(e) => {
                let detail = e.to_string();
                "Storage error: ".to_owned().concat(detail.as_str())
            },
        }
    }
}

/// The reason given where the name of a board is blank.
pub const BOARD_NAME_EMPTY: &'static str = "Board name cannot be empty";

/// The reason given where the title of a thread is blank.
pub const THREAD_TITLE_EMPTY: &'static str = "Thread title cannot be empty";

/// The reason given where the content of a post is blank.
pub const POST_CONTENT_EMPTY: &'static str = "Post content cannot be empty";

/// Whether a service error is one that creating an entity can end in where
/// the text was accepted: a fault of the store, and of the faults that are
/// found before the engine is asked only a time of creation without a stored
/// text.
pub open spec fn is_creation_fault(e: ServiceError) -> bool {
    match e {
        ServiceError::Storage(StorageError::Database(_)) => true,
        ServiceError::Storage(StorageError::Malformed(fault)) => fault == DataFault::Timestamp,
        ServiceError::Validation(_) => false,
    }
}

/// What the check of a text gives: nothing to object to, or the reason as a
/// validation error where the text is blank.
pub open spec fn checked_text(text: Seq<char>, reason: Seq<char>, res: Result<
    (),
    ServiceError,
>) -> bool {
    if is_blank(text) {
        res matches Err(ServiceError::Validation(r)) && r@ == reason
    } else {
        res is Ok
    }
}

/// Checks the content rule on a text: it must not be blank. A blank text is
/// refused with the given reason.
pub fn require_text(text: &str, reason: &str) -> (res: Result<(), ServiceError>)
    ensures
        checked_text(text@, reason@, res),
{
    if blank(text) {
        Err(ServiceError::Validation(reason.to_owned()))
    } else {
        Ok(())
    }
}

/// What creating an entity gives for each answer of its repository: the
/// entity where it was stored, and the storage error, as it came, where not.
pub fn stored<T>(entity: T, answer: Result<(), StorageError>) -> (res: Result<T, ServiceError>)
    ensures
        res == match answer {
            Ok(()) => Ok::<T, ServiceError>(entity),
            Err(e) => Err(ServiceError::Storage(e)),
        },
{
    match answer {
        Ok(()) => Ok(entity),
        Err(e) => Err(ServiceError::from(e)),
    }
}

/// What a listing gives for each answer of its repository: the listing
/// unchanged, or the storage error as it came.
pub fn forwarded<T>(answer: Result<T, StorageError>) -> (res: Result<T, ServiceError>)
    ensures
        res == match answer {
            Ok(listing) => Ok::<T, ServiceError>(listing),
            Err(e) => Err(ServiceError::Storage(e)),
        },
{
    match answer {
        Ok(listing) => Ok(listing),
        Err(e) => Err(ServiceError::from(e)),
    }
}

/// The services of the board. The type holds no state.
pub struct ServiceLayer;

impl ServiceLayer {
    /// Creates a board.
    ///
    /// A blank name is refused with a validation error, and nothing is handed
    /// to the store. Otherwise the board gets a fresh identifier and the
    /// current time and goes to the repository; what comes back is that
    /// board, or the storage error.
    pub fn create_board(conn: &DbConnection, name: String, description: String) -> (res: Result<
        Board,
        ServiceError,
    >)
        ensures
            is_blank(name@) ==> (res matches Err(ServiceError::Validation(reason)) && reason@
                == BOARD_NAME_EMPTY@),
            !is_blank(name@) ==> match res {
                Ok(board) => {
                    &&& board.id.is_random()
                    &&& board.name@ == name@
                    &&& board.description@ == description@
                    &&& board.created_at.offset_seconds == 0
                },
                Err(e) => is_creation_fault(e),
            },
    {
        match require_text(name.as_str(), BOARD_NAME_EMPTY) {
            Ok(()) => {},
            Err(e) => {
                return Err(e);
            },
        }
        let board = Board {
            id: Id::generate(),
            name,
            description,
            created_at: Timestamp::now_utc(),
        };
        let answer = board_repository::insert_board(conn, &board);
        stored(board, answer)
    }

    /// Creates a thread inside a board.
    ///
    /// A blank title is refused with a validation error, and nothing is
    /// handed to the store. Otherwise the thread gets a fresh identifier and
    /// the current time and goes to the repository; what comes back is that
    /// thread, or the storage error. Whether the board exists is not asked
    /// here: the store refuses a thread without a board.
    pub fn create_thread(conn: &DbConnection, board_id: Id, title: String) -> (res: Result<
        Thread,
        ServiceError,
    >)
        ensures
            is_blank(title@) ==> (res matches Err(ServiceError::Validation(reason)) && reason@
                == THREAD_TITLE_EMPTY@),
            !is_blank(title@) ==> match res {
                Ok(thread) => {
                    &&& thread.id.is_random()
                    &&& thread.board_id == board_id
                    &&& thread.title@ == title@
                    &&& thread.created_at.offset_seconds == 0
                },
                Err(e) => is_creation_fault(e),
            },
    {
        match require_text(title.as_str(), THREAD_TITLE_EMPTY) {
            Ok(()) => {},
            Err(e) => {
                return Err(e);
            },
        }
        let thread = Thread {
            id: Id::generate(),
            board_id,
            title,
            created_at: Timestamp::now_utc(),
        };
        let answer = thread_repository::insert_thread(conn, &thread);
        stored(thread, answer)
    }

    /// Creates a post inside a thread.
    ///
    /// Blank content is refused with a validation error, and nothing is
    /// handed to the store. Otherwise the post gets a fresh identifier and
    /// the current time and goes to the repository; what comes back is that
    /// post, or the storage error. Whether the thread exists is not asked
    /// here: the store refuses a post without a thread.
    pub fn create_post(conn: &DbConnection, thread_id: Id, content: String) -> (res: Result<
        Post,
        ServiceError,
    >)
        ensures
            is_blank(content@) ==> (res matches Err(ServiceError::Validation(reason)) && reason@
                == POST_CONTENT_EMPTY@),
            !is_blank(content@) ==> match res {
                Ok(post) => {
                    &&& post.id.is_random()
                    &&& post.thread_id == thread_id
                    &&& post.content@ == content@
                    &&& post.created_at.offset_seconds == 0
                },
                Err(e) => is_creation_fault(e),
            },
    {
        match require_text(content.as_str(), POST_CONTENT_EMPTY) {
            Ok(()) => {},
            Err(e) => {
                return Err(e);
            },
        }
        let post = Post {
            id: Id::generate(),
            thread_id,
            content,
            created_at: Timestamp::now_utc(),
        };
        let answer = post_repository::insert_post(conn, &post);
        stored(post, answer)
    }

    /// Lists every board: what the repository gives, or its error.
    pub fn list_boards(conn: &DbConnection) -> (res: Result<Vec<Board>, ServiceError>)
        ensures
            match res {
                Ok(boards) => board_repository::is_board_listing(boards.deep_view()),
                Err(ServiceError::Storage(_)) => true,
                Err(ServiceError::Validation(_)) => false,
            },
    {
        forwarded(board_repository::get_all(conn))
    }
}

} // verus!
