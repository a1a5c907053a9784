//! The repository of posts: table `posts`, columns `id`, `thread_id`,
//! `content`, `created_at`. The posts of a thread are listed oldest first.

use crate::ident::Id;
use crate::models::{Post, PostView};
use crate::ordering::{
    arranged, lemma_arranged_keeps, lemma_arranged_ordered, lemma_place_of_is, ordered, placed, Ranked,
};
use crate::storage::sqlite;
use crate::storage::{fetched, written, DataFault, DbConnection, StorageError};
use crate::timestamp::Timestamp;
use vstd::prelude::*;

verus! {

impl DeepView for Post {
    type V = PostView;

    open spec fn deep_view(&self) -> PostView {
        self@
    }
}

/// Posts are read in the order in which they were written: the earlier the
/// instant of creation, the lower the rank.
impl Ranked for PostView {
    open spec fn rank(&self) -> int {
        self.created_at.unix_nanos as int
    }
}

/// The cells of the row that stores a post, in column order; `None` where the
/// time of creation has no stored text.
pub open spec fn post_cells(post: PostView) -> Option<Seq<Seq<char>>> {
    match post.created_at.text() {
        Some(created_at) => Some(
            seq![post.id.text(), post.thread_id.text(), post.content, created_at],
        ),
        None => None,
    }
}

/// The post that the cells of a row stand for, or what is wrong with them:
/// the number of cells first, then the two identifiers, then the timestamp.
pub open spec fn post_from_cells(cells: Seq<Seq<char>>) -> Result<PostView, DataFault> {
    if cells.len() != 4 {
        Err(DataFault::Shape)
    } else {
        match (Id::from_text(cells[0]), Id::from_text(cells[1]), Timestamp::from_text(cells[3])) {
            (Some(id), Some(thread_id), Some(created_at)) => Ok(
                PostView { id, thread_id, content: cells[2], created_at },
            ),
            (Some(_), Some(_), None) => Err(DataFault::Timestamp),
            _ => Err(DataFault::Identifier),
        }
    }
}

/// Whether every row stands for a post.
pub open spec fn all_posts(rows: Seq<Seq<Seq<char>>>) -> bool {
    forall|i: int| 0 <= i < rows.len() ==> post_from_cells(#[trigger] rows[i]) is Ok
}

/// The posts that the rows stand for, row by row.
pub open spec fn posts_in_rows(rows: Seq<Seq<Seq<char>>>) -> Seq<PostView> {
    Seq::new(rows.len(), |i: int| post_from_cells(rows[i])->Ok_0)
}

/// Whether row `i` is the first of the rows that stands for no post, and
/// `fault` is what is wrong with it.
pub open spec fn first_bad_post_row(rows: Seq<Seq<Seq<char>>>, i: int, fault: DataFault) -> bool {
    &&& 0 <= i < rows.len()
    &&& post_from_cells(rows[i]) == Err::<PostView, DataFault>(fault)
    &&& forall|j: int| 0 <= j < i ==> post_from_cells(#[trigger] rows[j]) is Ok
}

/// Whether `posts` is the listing of what the rows of some table stand for.
pub open spec fn is_post_listing(posts: Seq<PostView>) -> bool {
    exists|rows: Seq<Seq<Seq<char>>>| all_posts(rows) && posts == arranged(posts_in_rows(rows))
}

/// Whatever other rows come with it, the post that a row stands for is in the
/// listing of the rows, in every field as the row has it.
pub proof fn lemma_post_of_row_is_listed(rows: Seq<Seq<Seq<char>>>, i: int)
    requires
        all_posts(rows),
        0 <= i < rows.len(),
    ensures
        arranged(posts_in_rows(rows)).contains(post_from_cells(rows[i])->Ok_0),
{
    lemma_arranged_keeps(posts_in_rows(rows), i);
}

/// Writes a post as the row that stores it.
///
/// The row reads back, by `post_from_row`, to the same post. The one post
/// that has no row is one whose time of creation has no stored text.
pub fn post_to_row(post: &Post) -> (res: Result<Vec<String>, StorageError>)
    ensures
        match post_cells(post@) {
            Some(cells) => res matches Ok(row) && row.deep_view() == cells,
            None => res matches Err(StorageError::Malformed(DataFault::Timestamp)),
        },
        res matches Ok(row) ==> post_from_cells(row.deep_view()) == Ok::<PostView, DataFault>(
            post@,
        ),
{
    match post.created_at.to_rfc3339() {
        None => Err(StorageError::Malformed(DataFault::Timestamp)),
        Some(created_at) => {
            let mut row: Vec<String> = Vec::new();
            row.push(post.id.to_text());
            row.push(post.thread_id.to_text());
            row.push(post.content.clone());
            row.push(created_at);
            assert(row.deep_view() =~= post_cells(post@)->Some_0);
            Ok(row)
        },
    }
}

/// Reads a post from the cells of a stored row. A cell that is not well
/// formed is an error, never replaced by a value made up here.
pub fn post_from_row(row: &Vec<String>) -> (res: Result<Post, StorageError>)
    ensures
        match post_from_cells(row.deep_view()) {
            Ok(post) => res matches Ok(p) && p@ == post,
            Err(fault) => res matches Err(StorageError::Malformed(f)) && f == fault,
        },
{
    if row.len() != 4 {
        return Err(StorageError::Malformed(DataFault::Shape));
    }
    let id = match Id::parse(row[0].as_str()) {
        Some(id) => id,
        None => {
            return Err(StorageError::Malformed(DataFault::Identifier));
        },
    };
    let thread_id = match Id::parse(row[1].as_str()) {
        Some(thread_id) => thread_id,
        None => {
            return Err(StorageError::Malformed(DataFault::Identifier));
        },
    };
    let created_at = match Timestamp::parse_rfc3339(row[3].as_str()) {
        Some(created_at) => created_at,
        None => {
            return Err(StorageError::Malformed(DataFault::Timestamp));
        },
    };
    Ok(Post { id, thread_id, content: row[2].clone(), created_at })
}

/// Puts a post into a listing at its place: behind the last post that is not
/// younger than it.
pub fn place_post(posts: &mut Vec<Post>, post: Post)
    ensures
        final(posts).deep_view() == placed(old(posts).deep_view(), post@),
{
    let mut at: usize = posts.len();
    while at > 0 && !posts[at - 1].created_at.not_after(&post.created_at)
        invariant
            at <= posts.len(),
            *posts == *old(posts),
            forall|j: int|
                at <= j < posts.len() ==> (#[trigger] posts.deep_view()[j]).rank() > post@.rank(),
        decreases at,
    {
        at = at - 1;
    }
    proof {
        lemma_place_of_is(posts.deep_view(), post@, at as int);
    }
    posts.insert(at, post);
    assert(posts.deep_view() =~= old(posts).deep_view().insert(at as int, post@));
}

/// Reads the posts that the rows of a table stand for and lists them oldest
/// first, posts of one instant in the order of their rows. The first row that
/// stands for no post ends the reading with its fault.
pub fn posts_from_rows(rows: &Vec<Vec<String>>) -> (res: Result<Vec<Post>, StorageError>)
    ensures
        match res {
            Ok(posts) => all_posts(rows.deep_view()) && posts.deep_view() == arranged(
                posts_in_rows(rows.deep_view()),
            ),
            Err(StorageError::Malformed(fault)) => exists|i: int|
                first_bad_post_row(rows.deep_view(), i, fault),
            Err(StorageError::Database(_)) => false,
        },
{
    let mut posts: Vec<Post> = Vec::new();
    let mut index: usize = 0;
    assert(posts.deep_view() =~= arranged(posts_in_rows(rows.deep_view()).take(0)));
    while index < rows.len()
        invariant
            index <= rows.len(),
            forall|i: int| 0 <= i < index ==> post_from_cells(#[trigger] rows.deep_view()[i]) is Ok,
            posts.deep_view() == arranged(posts_in_rows(rows.deep_view()).take(index as int)),
        decreases rows.len() - index,
    {
        assert(rows.deep_view()[index as int] == rows[index as int].deep_view());
        match post_from_row(&rows[index]) {
            Ok(post) => {
                let ghost all = posts_in_rows(rows.deep_view());
                assert(all.take(index + 1).drop_last() =~= all.take(index as int));
                assert(all.take(index + 1).last() == post@);
                place_post(&mut posts, post);
            },
            Err(e) => {
                assert(e matches StorageError::Malformed(fault) && first_bad_post_row(
                    rows.deep_view(),
                    index as int,
                    fault,
                ));
                return Err(e);
            },
        }
        index = index + 1;
    }
    assert(posts_in_rows(rows.deep_view()).take(index as int) =~= posts_in_rows(rows.deep_view()));
    Ok(posts)
}

/// The statement that stores a post.
pub const INSERT_POST: &'static str =
    "INSERT INTO posts (id, thread_id, content, created_at) VALUES (?1, ?2, ?3, ?4)";

/// The query that reads the posts of one thread.
pub const SELECT_POSTS_BY_THREAD: &'static str =
    "SELECT id, thread_id, content, created_at FROM posts WHERE thread_id = ?1 ORDER BY created_at ASC";

/// Stores a post as one new row.
///
/// A post whose time of creation has no stored text is refused before the
/// engine is asked. Otherwise the engine decides: it refuses a post whose
/// thread does not exist, and its error is handed on as it came.
pub fn insert_post(conn: &DbConnection, post: &Post) -> (res: Result<(), StorageError>)
    ensures
        post_cells(post@) is None ==> res matches Err(
            StorageError::Malformed(DataFault::Timestamp),
        ),
        post_cells(post@) is Some ==> !(res matches Err(StorageError::Malformed(_))),
{
    let row = post_to_row(post)?;
    written(sqlite::execute(conn, INSERT_POST, &row))
}

/// Lists the posts of a thread in the order of reading: oldest first.
///
/// Whatever rows the engine hands out, the listing is in that order. A row
/// that stands for no post ends the listing with an error.
pub fn get_posts_by_thread(conn: &DbConnection, thread_id: Id) -> (res: Result<
    Vec<Post>,
    StorageError,
>)
    ensures
        match res {
            Ok(posts) => ordered(posts.deep_view()) && is_post_listing(posts.deep_view()),
            Err(StorageError::Malformed(fault)) => fault != DataFault::Shape,
            Err(StorageError::Database(_)) => true,
        },
{
    let mut params: Vec<String> = Vec::new();
    params.push(thread_id.to_text());
    let rows = match fetched(sqlite::query(conn, SELECT_POSTS_BY_THREAD, &params, 4)) {
        Ok(rows) => rows,
        Err(e) => {
            return Err(e);
        },
    };
    let res = posts_from_rows(&rows);
    proof {
        lemma_arranged_ordered(posts_in_rows(rows.deep_view()));
        if let Err(StorageError::Malformed(fault)) = res {
            let i = choose|i: int| first_bad_post_row(rows.deep_view(), i, fault);
            assert(rows.deep_view()[i].len() == rows[i].len());
        }
    }
    res
}

} // verus!
