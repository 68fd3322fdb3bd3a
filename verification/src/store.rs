//! The relational store on disk: its statements, what is handed to them and
//! how its answers are read.
//!
//! The store is opened and closed by each operation; no connection outlives a
//! call.  What the store answers depends on the file on disk, so nothing is
//! claimed of it here: the functions that read an answer are verified for
//! every answer.
use vstd::prelude::*;
use vstd::string::StringExecFns;

use crate::book::{lemma_normalized_image, Book, BookView};
use crate::failure::{Failure, FailureKind};

verus! {

#[verifier::external_type_specification]
#[verifier::external_body]
pub struct ExConnection(rusqlite::Connection);

#[verifier::external_type_specification]
#[verifier::external_body]
pub struct ExStoreError(rusqlite::Error);

/// The file of the store inside the storage location.
pub const STORAGE_FILE: &'static str = "data.db";

/// Creates the table of books, one row per book URL.
pub const CREATE_BOOKS: &'static str = "CREATE TABLE if not exists books (
    id INTEGER PRIMARY KEY,
    source TEXT,
    name TEXT,
    book_url TEXT,
    image_url TEXT,
    in_library BIT);";

/// Creates the table of thumbnails, one row per book URL.
pub const CREATE_THUMBNAILS: &'static str = "CREATE TABLE if not exists thumbnails (
    id INTEGER PRIMARY KEY,
    book_url TEXT,
    image_data BLOB);";

/// Creates the table of chapters.
pub const CREATE_CHAPTERS: &'static str = "CREATE TABLE if not exists chapters (
    id INTEGER PRIMARY KEY,
    book_url TEXT,
    name TEXT,
    chapter_url TEXT,
    release_date TEXT);";

/// Removes the table of books with all its rows.
pub const DROP_BOOKS: &'static str = "DROP TABLE if exists books;";

/// Removes the table of thumbnails with all its rows.
pub const DROP_THUMBNAILS: &'static str = "DROP TABLE if exists thumbnails;";

/// Removes the table of chapters with all its rows.
pub const DROP_CHAPTERS: &'static str = "DROP TABLE if exists chapters;";

/// Selects the rows of the book at a URL.
pub const SELECT_BOOK: &'static str =
    "SELECT source, book_url, name, image_url, in_library FROM books WHERE book_url = ?1;";

/// Selects the rows of the books in the library.
pub const SELECT_LIBRARY: &'static str =
    "SELECT source, book_url, name, image_url, in_library FROM books WHERE in_library = 1";

/// Inserts a row for a book; its parameters are those of [`book_params`].
pub const INSERT_BOOK: &'static str =
    "INSERT INTO books (source, name, book_url, image_url, in_library) values (?1, ?2, ?3 ,?4, ?5)";

/// Overwrites every column of the rows of a book; its parameters are those
/// of [`book_params`].
pub const UPDATE_BOOK: &'static str =
    "UPDATE books SET source = ?1, name = ?2, book_url = ?3, image_url = ?4, in_library = ?5 WHERE book_url = ?3;";

/// Selects the thumbnails of the book at a URL.
pub const SELECT_THUMBNAIL: &'static str =
    "SELECT image_data FROM thumbnails WHERE book_url = ?1;";

/// Inserts a thumbnail for the book at a URL.
pub const INSERT_THUMBNAIL: &'static str =
    "INSERT INTO thumbnails (book_url, image_data) values (?1, ?2)";

/// Overwrites the thumbnail of the book at a URL.
pub const UPDATE_THUMBNAIL: &'static str =
    "UPDATE thumbnails SET image_data = ?2 WHERE book_url = ?1;";

/// The views of a sequence of strings.
pub open spec fn texts(strings: Seq<String>) -> Seq<Seq<char>> {
    strings.map_values(|s: String| s@)
}

/// The views of a sequence of books.
pub open spec fn books_of(books: Seq<Book>) -> Seq<BookView> {
    books.map_values(|b: Book| b@)
}

/// The path of the store's file for a storage location: the location, a
/// separator unless the location is empty or ends in one, and the file name.
pub open spec fn database_path_of(dir: Seq<char>) -> Seq<char> {
    if dir.len() == 0 {
        STORAGE_FILE@
    } else if dir.last() == '/' {
        dir + STORAGE_FILE@
    } else {
        dir + seq!['/'] + STORAGE_FILE@
    }
}

/// The path of the store's file inside the storage location `dir`.
pub fn database_path(dir: &str) -> (path: String)
    ensures
        path@ == database_path_of(dir@),
{
    let n = dir.unicode_len();
    let mut path = String::from_str(dir);
    if n > 0 && dir.get_char(n - 1) != '/' {
        proof {
            reveal_strlit("/");
            assert("/"@ =~= seq!['/']);
        }
        path.append("/");
    }
    path.append(STORAGE_FILE);
    proof {
        assert(Seq::<char>::empty() + STORAGE_FILE@ =~= STORAGE_FILE@);
    }
    path
}

/// The columns written for a book, in the order of the statements'
/// parameters: source, name, URL, image (empty for none) and the library flag
/// as `1` or `0`.
pub open spec fn book_row(book: BookView) -> Seq<Seq<char>> {
    seq![
        book.source,
        book.name,
        book.url,
        match book.image {
            Some(image) => image,
            None => Seq::empty(),
        },
        if book.in_library {
            "1"@
        } else {
            "0"@
        },
    ]
}

/// The parameters of [`INSERT_BOOK`] and [`UPDATE_BOOK`] for `book`.
pub fn book_params(book: &Book) -> (params: Vec<String>)
    ensures
        texts(params@) == book_row(book@),
{
    let image = match &book.image {
        Some(image) => image.clone(),
        None => String::new(),
    };
    let flag = if book.in_library {
        String::from_str("1")
    } else {
        String::from_str("0")
    };
    let mut params: Vec<String> = Vec::new();
    params.push(book.source.clone());
    params.push(book.name.clone());
    params.push(book.url.clone());
    params.push(image);
    params.push(flag);
    proof {
        assert(texts(params@) =~= book_row(book@));
    }
    params
}

/// The statement that writes a book, given what the store holds for the
/// book's URL: the row that is there is overwritten, a row that is missing is
/// inserted.
pub fn book_statement<T>(existing: &Option<T>) -> (statement: &'static str)
    ensures
        statement@ == (match existing {
            Some(_) => UPDATE_BOOK@,
            None => INSERT_BOOK@,
        }),
{
    match existing {
        Some(_) => UPDATE_BOOK,
        None => INSERT_BOOK,
    }
}

/// The statement that writes a thumbnail, given what the store holds for the
/// book's URL: the row that is there is overwritten, a row that is missing is
/// inserted.
pub fn thumbnail_statement<T>(existing: &Option<T>) -> (statement: &'static str)
    ensures
        statement@ == (match existing {
            Some(_) => UPDATE_THUMBNAIL@,
            None => INSERT_THUMBNAIL@,
        }),
{
    match existing {
        Some(_) => UPDATE_THUMBNAIL,
        None => INSERT_THUMBNAIL,
    }
}

/// The single parameter of the statements that select by URL.
pub fn key_params(url: &str) -> (params: Vec<String>)
    ensures
        texts(params@) == seq![url@],
{
    let mut params: Vec<String> = Vec::new();
    params.push(String::from_str(url));
    proof {
        assert(texts(params@) =~= seq![url@]);
    }
    params
}

/// The first row of an answer: the answer's own failure, no row, the first
/// row's failure, or the first row.
pub open spec fn first_of<T, E>(rows: Result<Seq<Result<T, E>>, E>) -> Result<Option<T>, E> {
    match rows {
        Err(e) => Err(e),
        Ok(rows) => if rows.len() == 0 {
            Ok(None)
        } else {
            match rows[0] {
                Ok(row) => Ok(Some(row)),
                Err(e) => Err(e),
            }
        },
    }
}

/// The rows of an answer as a sequence.
pub open spec fn rows_of<T, E>(rows: Result<Vec<Result<T, E>>, E>) -> Result<
    Seq<Result<T, E>>,
    E,
> {
    match rows {
        Ok(rows) => Ok(rows@),
        Err(e) => Err(e),
    }
}

/// Reads the first row of an answer.  Later rows are not looked at.
pub fn first_row<T, E>(rows: Result<Vec<Result<T, E>>, E>) -> (first: Result<Option<T>, E>)
    ensures
        first == first_of(rows_of(rows)),
{
    match rows {
        Err(e) => Err(e),
        Ok(rows) => {
            let mut rows = rows;
            if rows.len() == 0 {
                Ok(None)
            } else {
                match rows.swap_remove(0) {
                    Ok(row) => Ok(Some(row)),
                    Err(e) => Err(e),
                }
            }
        },
    }
}

/// The book that a lookup by URL answers, given what the store returned: the
/// first row, with an empty image read as absent.
pub fn book_from_rows<E>(rows: Result<Vec<Result<Book, E>>, E>) -> (found: Result<
    Option<Book>,
    E,
>)
    ensures
        match first_of(rows_of(rows)) {
            Ok(Some(row)) => found matches Ok(Some(book)) && book@ == row@.normalized(),
            Ok(None) => found == Ok::<Option<Book>, E>(None),
            Err(e) => found == Err::<Option<Book>, E>(e),
        },
{
    match first_row(rows) {
        Ok(Some(row)) => Ok(Some(row.normalized())),
        Ok(None) => Ok(None),
        Err(e) => Err(e),
    }
}

/// The library books among the rows of an answer: each row that could be read
/// and is flagged as in the library, in the order of the rows, with an empty
/// image read as absent.
pub open spec fn library_of<E>(rows: Seq<Result<Book, E>>) -> Seq<BookView>
    decreases rows.len(),
{
    if rows.len() == 0 {
        Seq::empty()
    } else {
        let before = library_of(rows.drop_last());
        match rows.last() {
            Ok(book) => if book.in_library {
                before.push(book@.normalized())
            } else {
                before
            },
            Err(_) => before,
        }
    }
}

/// Reads the rows of the library query.  A row that could not be read is
/// skipped, and so is one that is not flagged as in the library.
pub fn library_from_rows<E>(rows: &Vec<Result<Book, E>>) -> (books: Vec<Book>)
    ensures
        books_of(books@) == library_of(rows@),
{
    let mut books: Vec<Book> = Vec::new();
    let mut i: usize = 0;
    proof {
        assert(rows@.take(0) =~= Seq::empty());
        assert(books_of(books@) =~= Seq::empty());
    }
    while i < rows.len()
        invariant
            i <= rows.len(),
            books_of(books@) == library_of(rows@.take(i as int)),
        decreases rows.len() - i,
    {
        proof {
            assert(rows@.take(i + 1).drop_last() =~= rows@.take(i as int));
            assert(rows@.take(i + 1).last() == rows@[i as int]);
        }
        let ghost before = books@;
        match &rows[i] {
            Ok(book) => {
                if book.in_library {
                    let copy = book.clone().normalized();
                    books.push(copy);
                    proof {
                        assert(books_of(books@) =~= books_of(before).push(book@.normalized()));
                    }
                }
            },
            Err(_) => {},
        }
        i += 1;
    }
    proof {
        assert(rows@.take(rows.len() as int) =~= rows@);
    }
    books
}

/// Every book of a library answer is flagged as in the library and has no
/// empty image.
pub proof fn lemma_library_of_members<E>(rows: Seq<Result<Book, E>>)
    ensures
        library_of(rows).len() <= rows.len(),
        forall|i: int|
            0 <= i < library_of(rows).len() ==> {
                &&& (#[trigger] library_of(rows)[i]).in_library
                &&& library_of(rows)[i].image != Some(Seq::<char>::empty())
            },
    decreases rows.len(),
{
    if rows.len() > 0 {
        lemma_library_of_members(rows.drop_last());
        match rows.last() {
            Ok(book) => {
                lemma_normalized_image(book@);
            },
            Err(_) => {},
        }
    }
}

/// The failures among the outcomes of a run of statements, in their order.
pub open spec fn failures_of<T>(outcomes: Seq<Result<T, Failure>>) -> Seq<Failure>
    decreases outcomes.len(),
{
    if outcomes.len() == 0 {
        Seq::empty()
    } else {
        let before = failures_of(outcomes.drop_last());
        match outcomes.last() {
            Ok(_) => before,
            Err(failure) => before.push(failure),
        }
    }
}

/// Collects the failures among the outcomes of a run of statements.
pub fn failures<T>(outcomes: &Vec<Result<T, Failure>>) -> (found: Vec<Failure>)
    ensures
        found@ == failures_of(outcomes@),
{
    let mut found: Vec<Failure> = Vec::new();
    let mut i: usize = 0;
    proof {
        assert(outcomes@.take(0) =~= Seq::empty());
    }
    while i < outcomes.len()
        invariant
            i <= outcomes.len(),
            found@ == failures_of(outcomes@.take(i as int)),
        decreases outcomes.len() - i,
    {
        proof {
            assert(outcomes@.take(i + 1).drop_last() =~= outcomes@.take(i as int));
            assert(outcomes@.take(i + 1).last() == outcomes@[i as int]);
        }
        match &outcomes[i] {
            Ok(_) => {},
            Err(failure) => {
                found.push(failure.clone());
            },
        }
        i += 1;
    }
    proof {
        assert(outcomes@.take(outcomes.len() as int) =~= outcomes@);
    }
    found
}

/// The description of a schema that could not be created anew.
pub const REINIT_FAILED: &'static str = "Failed to reinit storage";

/// The description of a row that the store handed out for another URL than
/// the one asked for.
pub const FOREIGN_ROW: &'static str = "Row of another book";

/// The outcome of creating the schema anew, given the failures that it
/// reported: success where there are none, else one failure in fixed words.
pub fn schema_outcome(failures: &Vec<Failure>) -> (outcome: Result<(), Failure>)
    ensures
        match outcome {
            Ok(()) => failures.len() == 0,
            Err(failure) => failures.len() > 0 && failure.kind == FailureKind::Schema
                && failure.detail@ == REINIT_FAILED@,
        },
{
    if failures.len() > 0 {
        Err(Failure::new(FailureKind::Schema, String::from_str(REINIT_FAILED)))
    } else {
        Ok(())
    }
}

/// The answer to the lookup of `url`, given what was read from the store: a
/// book is taken only if it is the one at `url`, and a book at another URL is
/// a failed query.  No book and a failure are handed on.
pub fn book_at(url: &String, read: Result<Option<Book>, Failure>) -> (found: Result<
    Option<Book>,
    Failure,
>)
    ensures
        match read {
            Ok(Some(book)) => if book.url@ == url@ {
                found == read
            } else {
                found matches Err(failure) && failure.kind == FailureKind::Query
                    && failure.detail@ == FOREIGN_ROW@
            },
            _ => found == read,
        },
{
    match read {
        Ok(Some(book)) => {
            if book.url == *url {
                Ok(Some(book))
            } else {
                Err(Failure::new(FailureKind::Query, String::from_str(FOREIGN_ROW)))
            }
        },
        Ok(None) => Ok(None),
        Err(failure) => Err(failure),
    }
}

/// Each failure of a run of statements is one of its outcomes.
pub proof fn lemma_failures_of_members<T>(outcomes: Seq<Result<T, Failure>>)
    ensures
        failures_of(outcomes).len() <= outcomes.len(),
        forall|i: int|
            0 <= i < failures_of(outcomes).len() ==> exists|j: int|
                0 <= j < outcomes.len() && outcomes[j] == Err::<T, Failure>(
                    #[trigger] failures_of(outcomes)[i],
                ),
    decreases outcomes.len(),
{
    if outcomes.len() > 0 {
        let shorter = outcomes.drop_last();
        lemma_failures_of_members(shorter);
        assert forall|i: int| 0 <= i < failures_of(outcomes).len() implies exists|j: int|
            0 <= j < outcomes.len() && outcomes[j] == Err::<T, Failure>(
                #[trigger] failures_of(outcomes)[i],
            ) by {
            if i < failures_of(shorter).len() {
                let j = choose|j: int|
                    0 <= j < shorter.len() && shorter[j] == Err::<T, Failure>(
                        failures_of(shorter)[i],
                    );
                assert(outcomes[j] == shorter[j]);
            } else {
                assert(outcomes[outcomes.len() - 1] == outcomes.last());
            }
        }
    }
}

/// `rusqlite::Connection::open`: opens the database file at `path`, creating
/// the file where there is none.  Nothing is claimed of the outcome.
#[verifier::external_body]
pub(crate) fn open(path: &str) -> (opened: Result<rusqlite::Connection, rusqlite::Error>) {
    rusqlite::Connection::open(path)
}

/// `rusqlite::Connection::execute` with positional text parameters.  Nothing
/// is claimed of the outcome.
#[verifier::external_body]
pub(crate) fn execute(connection: &rusqlite::Connection, sql: &str, params: &Vec<String>) -> (changed:
    Result<usize, rusqlite::Error>) {
    connection.execute(sql, rusqlite::params_from_iter(params.iter()))
}

/// `rusqlite::Connection::execute` with a text key and a blob.  Nothing is
/// claimed of the outcome.
#[verifier::external_body]
pub(crate) fn execute_blob(
    connection: &rusqlite::Connection,
    sql: &str,
    key: &str,
    blob: &bytes::Bytes,
) -> (changed: Result<usize, rusqlite::Error>) {
    connection.execute(sql, (key, blob.as_ref()))
}

/// `rusqlite::Statement::query_map` on a statement prepared from `sql`, each
/// row read as the five columns of a book.  Nothing is claimed of the outcome.
#[verifier::external_body]
pub(crate) fn query_books(connection: &rusqlite::Connection, sql: &str, params: &Vec<String>) -> (rows:
    Result<Vec<Result<Book, rusqlite::Error>>, rusqlite::Error>) {
    let mut statement = connection.prepare(sql)?;
    let rows = statement.query_map(
        rusqlite::params_from_iter(params.iter()),
        |row| Ok(Book::new(row.get(0)?, row.get(1)?, row.get(2)?, row.get(3)?, row.get(4)?)),
    )?;
    Ok(rows.collect())
}

/// `rusqlite::Statement::query_map` on a statement prepared from `sql`, each
/// row read as one blob.  Nothing is claimed of the outcome.
#[verifier::external_body]
pub(crate) fn query_blobs(connection: &rusqlite::Connection, sql: &str, params: &Vec<String>) -> (rows:
    Result<Vec<Result<Vec<u8>, rusqlite::Error>>, rusqlite::Error>) {
    let mut statement = connection.prepare(sql)?;
    let rows = statement.query_map(
        rusqlite::params_from_iter(params.iter()),
        |row| row.get::<usize, Vec<u8>>(0),
    )?;
    Ok(rows.collect())
}

/// The `Debug` text of a `rusqlite::Error`.  Nothing is claimed of it.
#[verifier::external_body]
pub(crate) fn describe(error: &rusqlite::Error) -> (text: String) {
    format!("{:?}", error)
}

/// A failure of the given kind that carries the store's own description.
pub(crate) fn failure(kind: FailureKind, error: &rusqlite::Error) -> (failure: Failure)
    ensures
        failure.kind == kind,
{
    Failure::new(kind, describe(error))
}

/// Turns the store's error into a failure of the given kind.
pub(crate) fn lift<T>(kind: FailureKind, outcome: Result<T, rusqlite::Error>) -> (lifted: Result<
    T,
    Failure,
>)
    ensures
        match outcome {
            Ok(value) => lifted == Ok::<T, Failure>(value),
            Err(_) => lifted matches Err(failure) && failure.kind == kind,
        },
{
    match outcome {
        Ok(value) => Ok(value),
        Err(error) => Err(failure(kind, &error)),
    }
}

} // verus!
