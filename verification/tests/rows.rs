use rusty_board::ident::Id;
use rusty_board::models::{Board, Post, Role, Session, Thread, User};
use rusty_board::storage::board_repository::{board_from_row, board_to_row, boards_from_rows};
use rusty_board::storage::post_repository::{place_post, post_from_row, post_to_row, posts_from_rows};
use rusty_board::storage::session_repository::{session_from_row, session_from_rows, session_to_row};
use rusty_board::storage::thread_repository::{
    place_thread, thread_from_row, thread_to_row, threads_from_rows,
};
use rusty_board::storage::user_repository::{user_from_row, user_from_rows, user_to_row};
use rusty_board::storage::{DataFault, StorageError};
use rusty_board::timestamp::Timestamp;

const ID1: &str = "00000000-0000-0000-0000-000000000001";
const ID2: &str = "00000000-0000-0000-0000-000000000002";
const ID3: &str = "00000000-0000-0000-0000-000000000003";
const T0: i128 = 1_546_300_800_000_000_000;

fn row(cells: &[&str]) -> Vec<String> {
    cells.iter().map(|cell| cell.to_string()).collect()
}

fn at(unix_nanos: i128) -> Timestamp {
    Timestamp { unix_nanos, offset_seconds: 0 }
}

#[test]
fn board_row_cells() {
    let board = Board {
        id: Id { value: 1 },
        name: "general".into(),
        description: "".into(),
        created_at: at(T0),
    };
    assert_eq!(board_to_row(&board).unwrap(), row(&[ID1, "general", "", "2019-01-01T00:00:00Z"]));
}

#[test]
fn board_row_reads_back() {
    let board = Board {
        id: Id { value: 0xfeed },
        name: " spaced name ".into(),
        description: "d".into(),
        created_at: Timestamp { unix_nanos: T0 + 5, offset_seconds: 5400 },
    };
    let back = board_from_row(&board_to_row(&board).unwrap()).unwrap();
    assert_eq!(back.id, board.id);
    assert_eq!(back.name, board.name);
    assert_eq!(back.description, board.description);
    assert_eq!(back.created_at, board.created_at);
}

#[test]
fn board_row_faults() {
    let shape = board_from_row(&row(&[ID1, "n", "d"]));
    assert!(matches!(shape, Err(StorageError::Malformed(DataFault::Shape))));
    let shape = board_from_row(&row(&[ID1, "n", "d", "2019-01-01T00:00:00Z", "more"]));
    assert!(matches!(shape, Err(StorageError::Malformed(DataFault::Shape))));
    let shape = board_from_row(&row(&[]));
    assert!(matches!(shape, Err(StorageError::Malformed(DataFault::Shape))));
    let id = board_from_row(&row(&["1", "n", "d", "2019-01-01T00:00:00Z"]));
    assert!(matches!(id, Err(StorageError::Malformed(DataFault::Identifier))));
    let time = board_from_row(&row(&[ID1, "n", "d", "2019-01-01"]));
    assert!(matches!(time, Err(StorageError::Malformed(DataFault::Timestamp))));
    let both = board_from_row(&row(&["1", "n", "d", "never"]));
    assert!(matches!(both, Err(StorageError::Malformed(DataFault::Identifier))));
}

#[test]
fn board_without_a_timestamp_text_has_no_row() {
    let board = Board {
        id: Id { value: 1 },
        name: "n".into(),
        description: "d".into(),
        created_at: Timestamp { unix_nanos: T0, offset_seconds: 30 },
    };
    assert!(matches!(board_to_row(&board), Err(StorageError::Malformed(DataFault::Timestamp))));
}

#[test]
fn boards_come_in_the_order_of_the_rows() {
    let rows = vec![
        row(&[ID2, "b", "", "2019-01-01T00:00:02Z"]),
        row(&[ID1, "a", "", "2019-01-01T00:00:03Z"]),
        row(&[ID3, "c", "", "2019-01-01T00:00:01Z"]),
    ];
    let boards = boards_from_rows(&rows).unwrap();
    assert_eq!(boards.iter().map(|b| b.id.value).collect::<Vec<u128>>(), vec![2, 1, 3]);
    assert!(boards_from_rows(&Vec::new()).unwrap().is_empty());
}

#[test]
fn first_bad_board_row_decides_the_fault() {
    let rows = vec![
        row(&[ID1, "a", "", "2019-01-01T00:00:03Z"]),
        row(&[ID2, "b", "", "soon"]),
        row(&["x", "c", "", "2019-01-01T00:00:01Z"]),
    ];
    assert!(matches!(boards_from_rows(&rows), Err(StorageError::Malformed(DataFault::Timestamp))));
}

#[test]
fn thread_row_cells_and_faults() {
    let thread = Thread {
        id: Id { value: 2 },
        board_id: Id { value: 1 },
        title: "hello".into(),
        created_at: at(T0 + 500_000_000),
    };
    let cells = thread_to_row(&thread).unwrap();
    assert_eq!(cells, row(&[ID2, ID1, "hello", "2019-01-01T00:00:00.5Z"]));
    let back = thread_from_row(&cells).unwrap();
    assert_eq!((back.id, back.board_id, back.created_at), (thread.id, thread.board_id, thread.created_at));
    assert_eq!(back.title, "hello");

    let bad = thread_from_row(&row(&[ID2, "board", "hello", "2019-01-01T00:00:00Z"]));
    assert!(matches!(bad, Err(StorageError::Malformed(DataFault::Identifier))));
    let bad = thread_from_row(&row(&[ID2, ID1, "hello", "x"]));
    assert!(matches!(bad, Err(StorageError::Malformed(DataFault::Timestamp))));
    let bad = thread_from_row(&row(&[ID2, ID1, "hello"]));
    assert!(matches!(bad, Err(StorageError::Malformed(DataFault::Shape))));
    let mut no_text = thread;
    no_text.created_at.offset_seconds = 59;
    assert!(matches!(thread_to_row(&no_text), Err(StorageError::Malformed(DataFault::Timestamp))));
}

#[test]
fn post_row_cells_and_faults() {
    let post = Post {
        id: Id { value: 3 },
        thread_id: Id { value: 2 },
        content: "text".into(),
        created_at: at(T0),
    };
    let cells = post_to_row(&post).unwrap();
    assert_eq!(cells, row(&[ID3, ID2, "text", "2019-01-01T00:00:00Z"]));
    let back = post_from_row(&cells).unwrap();
    assert_eq!((back.id, back.thread_id, back.created_at), (post.id, post.thread_id, post.created_at));
    assert_eq!(back.content, "text");

    let bad = post_from_row(&row(&["", ID2, "text", "2019-01-01T00:00:00Z"]));
    assert!(matches!(bad, Err(StorageError::Malformed(DataFault::Identifier))));
    let bad = post_from_row(&row(&[ID3, ID2, "text", "2019-01-01T25:00:00Z"]));
    assert!(matches!(bad, Err(StorageError::Malformed(DataFault::Timestamp))));
    let bad = post_from_row(&row(&[ID3]));
    assert!(matches!(bad, Err(StorageError::Malformed(DataFault::Shape))));
}

#[test]
fn posts_from_rows_are_oldest_first() {
    let rows = vec![
        row(&[ID2, ID1, "second", "2019-01-01T00:00:02Z"]),
        row(&[ID3, ID1, "third", "2019-01-01T00:00:03Z"]),
        row(&[ID1, ID1, "first", "2019-01-01T00:00:01Z"]),
    ];
    let posts = posts_from_rows(&rows).unwrap();
    assert_eq!(posts.iter().map(|p| p.id.value).collect::<Vec<u128>>(), vec![1, 2, 3]);
}

#[test]
fn posts_of_one_instant_keep_the_order_of_the_rows() {
    let rows = vec![
        row(&[ID3, ID1, "c", "2019-01-01T00:00:01Z"]),
        row(&[ID1, ID1, "a", "2019-01-01T01:00:01+01:00"]),
        row(&[ID2, ID1, "b", "2019-01-01T00:00:00Z"]),
    ];
    let posts = posts_from_rows(&rows).unwrap();
    assert_eq!(posts.iter().map(|p| p.id.value).collect::<Vec<u128>>(), vec![2, 3, 1]);
}

#[test]
fn threads_from_rows_are_newest_first() {
    let rows = vec![
        row(&[ID2, ID1, "second", "2019-01-01T00:00:02Z"]),
        row(&[ID3, ID1, "third", "2019-01-01T00:00:03Z"]),
        row(&[ID1, ID1, "first", "2019-01-01T00:00:01Z"]),
    ];
    let threads = threads_from_rows(&rows).unwrap();
    assert_eq!(threads.iter().map(|t| t.id.value).collect::<Vec<u128>>(), vec![3, 2, 1]);
}

#[test]
fn threads_of_one_instant_keep_the_order_of_the_rows() {
    let rows = vec![
        row(&[ID3, ID1, "c", "2019-01-01T00:00:01Z"]),
        row(&[ID1, ID1, "a", "2019-01-01T00:00:01Z"]),
        row(&[ID2, ID1, "b", "2019-01-01T00:00:09Z"]),
    ];
    let threads = threads_from_rows(&rows).unwrap();
    assert_eq!(threads.iter().map(|t| t.id.value).collect::<Vec<u128>>(), vec![2, 3, 1]);
}

#[test]
fn bad_row_ends_a_sorted_listing() {
    let rows = vec![
        row(&[ID2, ID1, "second", "2019-01-01T00:00:02Z"]),
        row(&[ID3, "?", "third", "2019-01-01T00:00:03Z"]),
    ];
    assert!(matches!(posts_from_rows(&rows), Err(StorageError::Malformed(DataFault::Identifier))));
    assert!(matches!(threads_from_rows(&rows), Err(StorageError::Malformed(DataFault::Identifier))));
}

#[test]
fn placing_a_post_keeps_the_listing_in_order() {
    let post = |value: u128, nanos: i128| Post {
        id: Id { value },
        thread_id: Id { value: 0 },
        content: String::new(),
        created_at: at(nanos),
    };
    let mut posts: Vec<Post> = Vec::new();
    for (value, nanos) in [(1, 30), (2, 10), (3, 20), (4, 10), (5, 40), (6, -5)] {
        place_post(&mut posts, post(value, nanos));
    }
    assert_eq!(posts.iter().map(|p| p.id.value).collect::<Vec<u128>>(), vec![6, 2, 4, 3, 1, 5]);
}

#[test]
fn placing_a_thread_keeps_the_listing_in_order() {
    let thread = |value: u128, nanos: i128| Thread {
        id: Id { value },
        board_id: Id { value: 0 },
        title: String::new(),
        created_at: at(nanos),
    };
    let mut threads: Vec<Thread> = Vec::new();
    for (value, nanos) in [(1, 30), (2, 10), (3, 20), (4, 10), (5, 40), (6, i128::MIN)] {
        place_thread(&mut threads, thread(value, nanos));
    }
    assert_eq!(threads.iter().map(|t| t.id.value).collect::<Vec<u128>>(), vec![5, 1, 3, 2, 4, 6]);
}

#[test]
fn user_row_cells_and_faults() {
    let user = User {
        id: Id { value: 1 },
        username: "ann".into(),
        password_hash: "$h".into(),
        role: Role::Admin,
    };
    let cells = user_to_row(&user);
    assert_eq!(cells, row(&[ID1, "ann", "$h", "admin"]));
    let back = user_from_row(&cells).unwrap();
    assert_eq!((back.id, back.role), (user.id, Role::Admin));
    assert_eq!(back.username, "ann");
    assert_eq!(back.password_hash, "$h");

    let bad = user_from_row(&row(&[ID1, "ann", "$h", "ADMIN"]));
    assert!(matches!(bad, Err(StorageError::Malformed(DataFault::Role))));
    let bad = user_from_row(&row(&["ann", ID1, "$h", "admin"]));
    assert!(matches!(bad, Err(StorageError::Malformed(DataFault::Identifier))));
    let bad = user_from_row(&row(&["ann", ID1, "$h", "root"]));
    assert!(matches!(bad, Err(StorageError::Malformed(DataFault::Identifier))));
    let bad = user_from_row(&row(&[ID1, "ann", "$h"]));
    assert!(matches!(bad, Err(StorageError::Malformed(DataFault::Shape))));
}

#[test]
fn lookup_takes_the_first_row() {
    assert!(user_from_rows(&Vec::new()).unwrap().is_none());
    let rows = vec![row(&[ID2, "ann", "$h", "user"]), row(&["bad", "", "", ""])];
    assert_eq!(user_from_rows(&rows).unwrap().unwrap().id, Id { value: 2 });
    let rows = vec![row(&["bad", "", "", ""]), row(&[ID2, "ann", "$h", "user"])];
    assert!(matches!(user_from_rows(&rows), Err(StorageError::Malformed(DataFault::Identifier))));

    assert_eq!(session_from_rows(&Vec::new()).unwrap(), None);
    let rows = vec![row(&[ID3, ID1, "2019-01-01T00:00:00Z"])];
    assert_eq!(
        session_from_rows(&rows).unwrap(),
        Some(Session { token: Id { value: 3 }, user_id: Id { value: 1 }, created_at: at(T0) })
    );
    let rows = vec![row(&[ID3, ID1])];
    assert!(matches!(session_from_rows(&rows), Err(StorageError::Malformed(DataFault::Shape))));
}

#[test]
fn session_row_cells_and_faults() {
    let session = Session { token: Id { value: 3 }, user_id: Id { value: 1 }, created_at: at(T0) };
    let cells = session_to_row(&session).unwrap();
    assert_eq!(cells, row(&[ID3, ID1, "2019-01-01T00:00:00Z"]));
    assert_eq!(session_from_row(&cells).unwrap(), session);

    let bad = session_from_row(&row(&[ID3, "u", "2019-01-01T00:00:00Z"]));
    assert!(matches!(bad, Err(StorageError::Malformed(DataFault::Identifier))));
    let bad = session_from_row(&row(&[ID3, ID1, "now"]));
    assert!(matches!(bad, Err(StorageError::Malformed(DataFault::Timestamp))));
    let bad = session_from_row(&row(&[ID3, ID1, "2019-01-01T00:00:00Z", ""]));
    assert!(matches!(bad, Err(StorageError::Malformed(DataFault::Shape))));
    let no_text = Session { created_at: Timestamp { unix_nanos: T0, offset_seconds: -1 }, ..session };
    assert!(matches!(session_to_row(&no_text), Err(StorageError::Malformed(DataFault::Timestamp))));
}
