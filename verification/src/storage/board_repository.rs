//! The repository of boards: table `boards`, columns `id`, `name`,
//! `description`, `created_at`.

use crate::ident::Id;
use crate::models::{Board, BoardView};
use crate::storage::sqlite;
use crate::storage::{fetched, written, DataFault, DbConnection, StorageError};
use crate::timestamp::Timestamp;
use vstd::prelude::*;

verus! {

/// The cells of the row that stores a board, in column order; `None` where
/// the time of creation has no stored text.
pub open spec fn board_cells(board: BoardView) -> Option<Seq<Seq<char>>> {
    match board.created_at.text() {
        Some(created_at) => Some(seq![board.id.text(), board.name, board.description, created_at]),
        None => None,
    }
}

/// The board that the cells of a row stand for, or what is wrong with them:
/// the number of cells first, then the identifier, then the timestamp.
pub open spec fn board_from_cells(cells: Seq<Seq<char>>) -> Result<BoardView, DataFault> {
    if cells.len() != 4 {
        Err(DataFault::Shape)
    } else {
        match (Id::from_text(cells[0]), Timestamp::from_text(cells[3])) {
            (None, _) => Err(DataFault::Identifier),
            (Some(_), None) => Err(DataFault::Timestamp),
            (Some(id), Some(created_at)) => Ok(
                BoardView { id, name: cells[1], description: cells[2], created_at },
            ),
        }
    }
}

/// Whether `boards` is what the rows of a table stand for, row by row.
pub open spec fn boards_of_rows(rows: Seq<Seq<Seq<char>>>, boards: Seq<BoardView>) -> bool {
    &&& boards.len() == rows.len()
    &&& forall|i: int| 0 <= i < rows.len() ==> board_from_cells(#[trigger] rows[i]) == Ok::<BoardView, DataFault>(boards[i])
}

/// Whether `boards` is what the rows of some table stand for.
pub open spec fn is_board_listing(boards: Seq<BoardView>) -> bool {
    exists|rows: Seq<Seq<Seq<char>>>| boards_of_rows(rows, boards)
}

/// Whether row `i` is the first of the rows that stands for no board, and
/// `fault` is what is wrong with it.
pub open spec fn first_bad_board_row(rows: Seq<Seq<Seq<char>>>, i: int, fault: DataFault) -> bool {
    &&& 0 <= i < rows.len()
    &&& board_from_cells(rows[i]) == Err::<BoardView, DataFault>(fault)
    &&& forall|j: int| 0 <= j < i ==> board_from_cells(#[trigger] rows[j]) is Ok
}

impl DeepView for Board {
    type V = BoardView;

    open spec fn deep_view(&self) -> BoardView {
        self@
    }
}

/// Whatever other rows come with it, the board that a row stands for is in
/// the listing of the rows at the place of the row, in every field as the row
/// has it.
pub proof fn lemma_board_of_row_is_listed(
    rows: Seq<Seq<Seq<char>>>,
    boards: Seq<BoardView>,
    i: int,
    board: BoardView,
)
    requires
        boards_of_rows(rows, boards),
        0 <= i < rows.len(),
        board_from_cells(rows[i]) == Ok::<BoardView, DataFault>(board),
    ensures
        boards[i] == board,
{
}

/// Writes a board as the row that stores it.
///
/// The row reads back, by `board_from_row`, to the same board. The one board
/// that has no row is one whose time of creation has no stored text.
pub fn board_to_row(board: &Board) -> (res: Result<Vec<String>, StorageError>)
    ensures
        match board_cells(board@) {
            Some(cells) => res matches Ok(row) && row.deep_view() == cells,
            None => res matches Err(StorageError::Malformed(DataFault::Timestamp)),
        },
        res matches Ok(row) ==> board_from_cells(row.deep_view()) == Ok::<BoardView, DataFault>(
            board@,
        ),
{
    match board.created_at.to_rfc3339() {
        None => Err(StorageError::Malformed(DataFault::Timestamp)),
        Some(created_at) => {
            let mut row: Vec<String> = Vec::new();
            row.push(board.id.to_text());
            row.push(board.name.clone());
            row.push(board.description.clone());
            row.push(created_at);
            assert(row.deep_view() =~= board_cells(board@)->Some_0);
            Ok(row)
        },
    }
}

/// Reads a board from the cells of a stored row. A cell that is not well
/// formed is an error, never replaced by a value made up here.
pub fn board_from_row(row: &Vec<String>) -> (res: Result<Board, StorageError>)
    ensures
        match board_from_cells(row.deep_view()) {
            Ok(board) => res matches Ok(b) && b@ == board,
            Err(fault) => res matches Err(StorageError::Malformed(f)) && f == fault,
        },
{
    if row.len() != 4 {
        return Err(StorageError::Malformed(DataFault::Shape));
    }
    let id = match Id::parse(row[0].as_str()) {
        Some(id) => id,
        None => {
            return Err(StorageError::Malformed(DataFault::Identifier));
        },
    };
    let created_at = match Timestamp::parse_rfc3339(row[3].as_str()) {
        Some(created_at) => created_at,
        None => {
            return Err(StorageError::Malformed(DataFault::Timestamp));
        },
    };
    Ok(Board { id, name: row[1].clone(), description: row[2].clone(), created_at })
}

/// Reads the boards that the rows of a table stand for, in the order of the
/// rows. The first row that stands for no board ends the reading with its
/// fault.
pub fn boards_from_rows(rows: &Vec<Vec<String>>) -> (res: Result<Vec<Board>, StorageError>)
    ensures
        match res {
            Ok(boards) => boards_of_rows(rows.deep_view(), boards.deep_view()),
            Err(StorageError::Malformed(fault)) => exists|i: int|
                first_bad_board_row(rows.deep_view(), i, fault),
            Err(StorageError::Database(_)) => false,
        },
{
    let mut boards: Vec<Board> = Vec::new();
    let mut index: usize = 0;
    while index < rows.len()
        invariant
            index <= rows.len(),
            boards.len() == index,
            forall|i: int|
                0 <= i < index ==> board_from_cells(#[trigger] rows.deep_view()[i]) == Ok::<
                    BoardView,
                    DataFault,
                >(boards[i]@),
        decreases rows.len() - index,
    {
        assert(rows.deep_view()[index as int] == rows[index as int].deep_view());
        match board_from_row(&rows[index]) {
            Ok(board) => {
                boards.push(board);
            },
            Err(e) => {
                assert(e matches StorageError::Malformed(fault) && first_bad_board_row(
                    rows.deep_view(),
                    index as int,
                    fault,
                ));
                return Err(e);
            },
        }
        index = index + 1;
    }
    Ok(boards)
}

/// The statement that stores a board.
pub const INSERT_BOARD: &'static str =
    "INSERT INTO boards (id, name, description, created_at) VALUES (?1, ?2, ?3, ?4)";

/// The query that lists the boards.
pub const SELECT_BOARDS: &'static str = "SELECT id, name, description, created_at FROM boards";

/// Stores a board as one new row.
///
/// A board whose time of creation has no stored text is refused before the
/// engine is asked. Otherwise the engine decides: it refuses a second board of
/// the same name or identifier, and its error is handed on as it came.
pub fn insert_board(conn: &DbConnection, board: &Board) -> (res: Result<(), StorageError>)
    ensures
        board_cells(board@) is None ==> res matches Err(
            StorageError::Malformed(DataFault::Timestamp),
        ),
        board_cells(board@) is Some ==> !(res matches Err(StorageError::Malformed(_))),
{
    let row = board_to_row(board)?;
    written(sqlite::execute(conn, INSERT_BOARD, &row))
}

/// Lists every board in the store.
///
/// What comes out is what the rows of the table stand for, row by row. A row
/// that stands for no board ends the listing with an error.
pub fn get_all(conn: &DbConnection) -> (res: Result<Vec<Board>, StorageError>)
    ensures
        match res {
            Ok(boards) => is_board_listing(boards.deep_view()),
            Err(StorageError::Malformed(fault)) => fault != DataFault::Shape,
            Err(StorageError::Database(_)) => true,
        },
{
    let no_params: Vec<String> = Vec::new();
    let rows = match fetched(sqlite::query(conn, SELECT_BOARDS, &no_params, 4)) {
        Ok(rows) => rows,
        Err(e) => {
            return Err(e);
        },
    };
    let res = boards_from_rows(&rows);
    proof {
        if let Err(StorageError::Malformed(fault)) = res {
            let i = choose|i: int| first_bad_board_row(rows.deep_view(), i, fault);
            assert(rows.deep_view()[i].len() == rows[i].len());
        }
    }
    res
}

} // verus!
