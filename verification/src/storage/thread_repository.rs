//! The repository of threads: table `threads`, columns `id`, `board_id`,
//! `title`, `created_at`. The threads of a board are listed newest first.

use crate::ident::Id;
use crate::models::{Thread, ThreadView};
use crate::ordering::{
    arranged, lemma_arranged_keeps, lemma_arranged_ordered, lemma_place_of_is, ordered, placed, Ranked,
};
use crate::storage::sqlite;
use crate::storage::{fetched, written, DataFault, DbConnection, StorageError};
use crate::timestamp::Timestamp;
use vstd::prelude::*;

verus! {

impl DeepView for Thread {
    type V = ThreadView;

    open spec fn deep_view(&self) -> ThreadView {
        self@
    }
}

/// The most recent thread is shown first: the later the instant of creation,
/// the lower the rank.
impl Ranked for ThreadView {
    open spec fn rank(&self) -> int {
        -(self.created_at.unix_nanos as int)
    }
}

/// The cells of the row that stores a thread, in column order; `None` where the
/// time of creation has no stored text.
pub open spec fn thread_cells(thread: ThreadView) -> Option<Seq<Seq<char>>> {
    match thread.created_at.text() {
        Some(created_at) => Some(
            seq![thread.id.text(), thread.board_id.text(), thread.title, created_at],
        ),
        None => None,
    }
}

/// The thread that the cells of a row stand for, or what is wrong with them:
/// the number of cells first, then the two identifiers, then the timestamp.
pub open spec fn thread_from_cells(cells: Seq<Seq<char>>) -> Result<ThreadView, DataFault> {
    if cells.len() != 4 {
        Err(DataFault::Shape)
    } else {
        match (Id::from_text(cells[0]), Id::from_text(cells[1]), Timestamp::from_text(cells[3])) {
            (Some(id), Some(board_id), Some(created_at)) => Ok(
                ThreadView { id, board_id, title: cells[2], created_at },
            ),
            (Some(_), Some(_), None) => Err(DataFault::Timestamp),
            _ => Err(DataFault::Identifier),
        }
    }
}

/// Whether every row stands for a thread.
pub open spec fn all_threads(rows: Seq<Seq<Seq<char>>>) -> bool {
    forall|i: int| 0 <= i < rows.len() ==> thread_from_cells(#[trigger] rows[i]) is Ok
}

/// The threads that the rows stand for, row by row.
pub open spec fn threads_in_rows(rows: Seq<Seq<Seq<char>>>) -> Seq<ThreadView> {
    Seq::new(rows.len(), |i: int| thread_from_cells(rows[i])->Ok_0)
}

/// Whether row `i` is the first of the rows that stands for no thread, and
/// `fault` is what is wrong with it.
pub open spec fn first_bad_thread_row(rows: Seq<Seq<Seq<char>>>, i: int, fault: DataFault) -> bool {
    &&& 0 <= i < rows.len()
    &&& thread_from_cells(rows[i]) == Err::<ThreadView, DataFault>(fault)
    &&& forall|j: int| 0 <= j < i ==> thread_from_cells(#[trigger] rows[j]) is Ok
}

/// Whether `threads` is the listing of what the rows of some table stand for.
pub open spec fn is_thread_listing(threads: Seq<ThreadView>) -> bool {
    exists|rows: Seq<Seq<Seq<char>>>| all_threads(rows) && threads == arranged(threads_in_rows(rows))
}

/// Whatever other rows come with it, the thread that a row stands for is in the
/// listing of the rows, in every field as the row has it.
pub proof fn lemma_thread_of_row_is_listed(rows: Seq<Seq<Seq<char>>>, i: int)
    requires
        all_threads(rows),
        0 <= i < rows.len(),
    ensures
        arranged(threads_in_rows(rows)).contains(thread_from_cells(rows[i])->Ok_0),
{
    lemma_arranged_keeps(threads_in_rows(rows), i);
}

/// Writes a thread as the row that stores it.
///
/// The row reads back, by `thread_from_row`, to the same thread. The one thread
/// that has no row is one whose time of creation has no stored text.
pub fn thread_to_row(thread: &Thread) -> (res: Result<Vec<String>, StorageError>)
    ensures
        match thread_cells(thread@) {
            Some(cells) => res matches Ok(row) && row.deep_view() == cells,
            None => res matches Err(StorageError::Malformed(DataFault::Timestamp)),
        },
        res matches Ok(row) ==> thread_from_cells(row.deep_view()) == Ok::<ThreadView, DataFault>(
            thread@,
        ),
{
    match thread.created_at.to_rfc3339() {
        None => Err(StorageError::Malformed(DataFault::Timestamp)),
        Some(created_at) => {
            let mut row: Vec<String> = Vec::new();
            row.push(thread.id.to_text());
            row.push(thread.board_id.to_text());
            row.push(thread.title.clone());
            row.push(created_at);
            assert(row.deep_view() =~= thread_cells(thread@)->Some_0);
            Ok(row)
        },
    }
}

/// Reads a thread from the cells of a stored row. A cell that is not well
/// formed is an error, never replaced by a value made up here.
pub fn thread_from_row(row: &Vec<String>) -> (res: Result<Thread, StorageError>)
    ensures
        match thread_from_cells(row.deep_view()) {
            Ok(thread) => res matches Ok(p) && p@ == thread,
            Err(fault) => res matches Err(StorageError::Malformed(f)) && f == fault,
        },
{
    if row.len() != 4 {
        return Err(StorageError::Malformed(DataFault::Shape));
    }
    let id = match Id::parse(row[0].as_str()) {
        Some(id) => id,
        None => {
            return Err(StorageError::Malformed(DataFault::Identifier));
        },
    };
    let board_id = match Id::parse(row[1].as_str()) {
        Some(board_id) => board_id,
        None => {
            return Err(StorageError::Malformed(DataFault::Identifier));
        },
    };
    let created_at = match Timestamp::parse_rfc3339(row[3].as_str()) {
        Some(created_at) => created_at,
        None => {
            return Err(StorageError::Malformed(DataFault::Timestamp));
        },
    };
    Ok(Thread { id, board_id, title: row[2].clone(), created_at })
}

/// Puts a thread into a listing at its place: behind the last thread that is
/// not older than it.
pub fn place_thread(threads: &mut Vec<Thread>, thread: Thread)
    ensures
        final(threads).deep_view() == placed(old(threads).deep_view(), thread@),
{
    let mut at: usize = threads.len();
    while at > 0 && !thread.created_at.not_after(&threads[at - 1].created_at)
        invariant
            at <= threads.len(),
            *threads == *old(threads),
            forall|j: int|
                at <= j < threads.len() ==> (#[trigger] threads.deep_view()[j]).rank() > thread@.rank(),
        decreases at,
    {
        at = at - 1;
    }
    proof {
        lemma_place_of_is(threads.deep_view(), thread@, at as int);
    }
    threads.insert(at, thread);
    assert(threads.deep_view() =~= old(threads).deep_view().insert(at as int, thread@));
}

/// Reads the threads that the rows of a table stand for and lists them newest
/// first, threads of one instant in the order of their rows. The first row
/// that stands for no thread ends the reading with its fault.
pub fn threads_from_rows(rows: &Vec<Vec<String>>) -> (res: Result<Vec<Thread>, StorageError>)
    ensures
        match res {
            Ok(threads) => all_threads(rows.deep_view()) && threads.deep_view() == arranged(
                threads_in_rows(rows.deep_view()),
            ),
            Err(StorageError::Malformed(fault)) => exists|i: int|
                first_bad_thread_row(rows.deep_view(), i, fault),
            Err(StorageError::Database(_)) => false,
        },
{
    let mut threads: Vec<Thread> = Vec::new();
    let mut index: usize = 0;
    assert(threads.deep_view() =~= arranged(threads_in_rows(rows.deep_view()).take(0)));
    while index < rows.len()
        invariant
            index <= rows.len(),
            forall|i: int| 0 <= i < index ==> thread_from_cells(#[trigger] rows.deep_view()[i]) is Ok,
            threads.deep_view() == arranged(threads_in_rows(rows.deep_view()).take(index as int)),
        decreases rows.len() - index,
    {
        assert(rows.deep_view()[index as int] == rows[index as int].deep_view());
        match thread_from_row(&rows[index]) {
            Ok(thread) => {
                let ghost all = threads_in_rows(rows.deep_view());
                assert(all.take(index + 1).drop_last() =~= all.take(index as int));
                assert(all.take(index + 1).last() == thread@);
                place_thread(&mut threads, thread);
            },
            Err(e) => {
                assert(e matches StorageError::Malformed(fault) && first_bad_thread_row(
                    rows.deep_view(),
                    index as int,
                    fault,
                ));
                return Err(e);
            },
        }
        index = index + 1;
    }
    assert(threads_in_rows(rows.deep_view()).take(index as int) =~= threads_in_rows(rows.deep_view()));
    Ok(threads)
}

/// The statement that stores a thread.
pub const INSERT_THREAD: &'static str =
    "INSERT INTO threads (id, board_id, title, created_at) VALUES (?1, ?2, ?3, ?4)";

/// The query that reads the threads of one board.
pub const SELECT_THREADS_BY_BOARD: &'static str =
    "SELECT id, board_id, title, created_at FROM threads WHERE board_id = ?1 ORDER BY created_at DESC";

/// Stores a thread as one new row.
///
/// A thread whose time of creation has no stored text is refused before the
/// engine is asked. Otherwise the engine decides: it refuses a thread whose
/// board does not exist, and its error is handed on as it came.
pub fn insert_thread(conn: &DbConnection, thread: &Thread) -> (res: Result<(), StorageError>)
    ensures
        thread_cells(thread@) is None ==> res matches Err(
            StorageError::Malformed(DataFault::Timestamp),
        ),
        thread_cells(thread@) is Some ==> !(res matches Err(StorageError::Malformed(_))),
{
    let row = thread_to_row(thread)?;
    written(sqlite::execute(conn, INSERT_THREAD, &row))
}

/// Lists the threads of a board, the most recent first.
///
/// Whatever rows the engine hands out, the listing is in that order. A row
/// that stands for no thread ends the listing with an error.
pub fn get_threads_by_board(conn: &DbConnection, board_id: Id) -> (res: Result<
    Vec<Thread>,
    StorageError,
>)
    ensures
        match res {
            Ok(threads) => ordered(threads.deep_view()) && is_thread_listing(threads.deep_view()),
            Err(StorageError::Malformed(fault)) => fault != DataFault::Shape,
            Err(StorageError::Database(_)) => true,
        },
{
    let mut params: Vec<String> = Vec::new();
    params.push(board_id.to_text());
    let rows = match fetched(sqlite::query(conn, SELECT_THREADS_BY_BOARD, &params, 4)) {
        Ok(rows) => rows,
        Err(e) => {
            return Err(e);
        },
    };
    let res = threads_from_rows(&rows);
    proof {
        lemma_arranged_ordered(threads_in_rows(rows.deep_view()));
        if let Err(StorageError::Malformed(fault)) = res {
            let i = choose|i: int| first_bad_thread_row(rows.deep_view(), i, fault);
            assert(rows.deep_view()[i].len() == rows[i].len());
        }
    }
    res
}

} // verus!
