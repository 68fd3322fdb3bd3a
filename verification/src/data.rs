//! The data manager: the single gateway to book and thumbnail state.
//!
//! Reads look in memory first and in the store second; a store hit is not
//! promoted into memory.  Writes go to the store first and reach memory only
//! once the store has accepted them, so that the store stays the ground truth
//! when a write fails half way.
use vstd::hash_map::StringHashMap;
use vstd::prelude::*;
use vstd::string::StringExecFns;

use crate::book::{Book, BookView};
use crate::failure::{Failure, FailureKind};
use crate::ranking;
use crate::store;
use crate::thumbnail;
use crate::thumbnail::{contents, ImageHandle, ImageHandleView};

verus! {

/// Keeps books and cover thumbnails in memory, backed by the store in its
/// storage location.
pub struct DataManager {
    storage_path: String,
    books: StringHashMap<Book>,
    book_covers: StringHashMap<bytes::Bytes>,
}

/// The mathematical value of a [`DataManager`]: its storage location and the
/// two memory caches, both keyed by book URL.
pub struct DataManagerView {
    pub location: Seq<char>,
    pub books: Map<Seq<char>, BookView>,
    pub covers: Map<Seq<char>, Seq<u8>>,
}

impl DataManagerView {
    /// Whether each book in memory is held under its own URL.
    pub open spec fn keyed_by_url(self) -> bool {
        forall|url: Seq<char>|
            self.books.contains_key(url) ==> (#[trigger] self.books[url]).url == url
    }

    /// The book that memory holds for `url`.
    pub open spec fn book(self, url: Seq<char>) -> Option<BookView> {
        if self.books.contains_key(url) {
            Some(self.books[url])
        } else {
            None
        }
    }

    /// The thumbnail that memory holds for the book at `url`.
    pub open spec fn cover(self, url: Seq<char>) -> Option<Seq<u8>> {
        if self.covers.contains_key(url) {
            Some(self.covers[url])
        } else {
            None
        }
    }

    /// Memory after `book` has been written through: it replaces whatever was
    /// held for its URL.
    pub open spec fn with_book(self, book: BookView) -> DataManagerView {
        DataManagerView { books: self.books.insert(book.url, book), ..self }
    }

    /// Memory after a thumbnail has been put in for the book at `url`.
    pub open spec fn with_cover(self, url: Seq<char>, bytes: Seq<u8>) -> DataManagerView {
        DataManagerView { covers: self.covers.insert(url, bytes), ..self }
    }

    /// The same storage location with nothing in memory.
    pub open spec fn cleared(self) -> DataManagerView {
        DataManagerView { location: self.location, books: Map::empty(), covers: Map::empty() }
    }

    /// The same caches at another storage location.
    pub open spec fn at(self, location: Seq<char>) -> DataManagerView {
        DataManagerView { location, ..self }
    }
}

/// What a lookup of `url` in the store may answer: a book is the one at
/// `url` and never carries the empty image, and a failure is one of opening
/// or of querying.
pub open spec fn is_stored_book_answer(
    url: Seq<char>,
    found: Result<Option<Book>, Failure>,
) -> bool {
    match found {
        Ok(Some(book)) => book.url@ == url && book@.image != Some(Seq::<char>::empty()),
        Ok(None) => true,
        Err(failure) => failure.kind == FailureKind::Connect || failure.kind
            == FailureKind::Query,
    }
}

/// What a lookup of `url` may answer when memory is `memory`: the book that
/// memory holds for `url`, or on a miss what the store may answer.
pub open spec fn is_book_lookup(
    memory: DataManagerView,
    url: Seq<char>,
    found: Result<Option<Book>, Failure>,
) -> bool {
    match memory.book(url) {
        Some(cached) => found matches Ok(Some(book)) && book@ == cached && book.url@ == url,
        None => is_stored_book_answer(url, found),
    }
}

/// What follows from [`DataManager::clear_all`].  Once the store has been
/// emptied, memory is empty too, so that it holds nothing that the store does
/// not.  When the store fails, memory is left as it was, and the failure
/// tells the step that failed by its kind: opening the store, dropping a
/// table, or creating the schema anew, which is described in fixed words.
pub open spec fn is_clear_outcome(
    before: DataManagerView,
    after: DataManagerView,
    outcome: Result<(), Failure>,
) -> bool {
    match outcome {
        Ok(()) => after == before.cleared(),
        Err(failure) => {
            &&& after == before
            &&& {
                ||| failure.kind == FailureKind::Connect
                ||| failure.kind == FailureKind::Query
                ||| failure.kind == FailureKind::Schema && failure.detail@
                    == store::REINIT_FAILED@
            }
        },
    }
}

/// What [`DataManager::init`] may report: the one failure of opening the
/// store, or the failures of creating tables.
pub open spec fn is_init_report(failures: Seq<Failure>) -> bool {
    ||| failures.len() == 1 && failures[0].kind == FailureKind::Connect
    ||| forall|i: int| 0 <= i < failures.len() ==> (#[trigger] failures[i]).kind
        == FailureKind::Schema
}

/// What a thumbnail lookup in the store may answer: a failure is one of
/// opening or of querying.
pub open spec fn is_stored_cover_answer(found: Result<Option<bytes::Bytes>, Failure>) -> bool {
    match found {
        Ok(_) => true,
        Err(failure) => failure.kind == FailureKind::Connect || failure.kind
            == FailureKind::Query,
    }
}

impl View for DataManager {
    type V = DataManagerView;

    closed spec fn view(&self) -> DataManagerView {
        DataManagerView {
            location: self.storage_path@,
            books: self.books@.map_values(|book: Book| book@),
            covers: self.book_covers@.map_values(|bytes: bytes::Bytes| contents(bytes)),
        }
    }
}

impl Default for DataManager {
    fn default() -> (manager: DataManager)
        ensures
            manager.wf(),
            manager@.location == Seq::<char>::empty(),
            manager@.books == Map::<Seq<char>, BookView>::empty(),
            manager@.covers == Map::<Seq<char>, Seq<u8>>::empty(),
    {
        DataManager::new()
    }
}

impl DataManager {
    /// The manager's invariant: each book in memory is held under its own
    /// URL.  [`DataManager::new`] establishes it and every method keeps it.
    pub open spec fn wf(&self) -> bool {
        self@.keyed_by_url()
    }

    /// A manager with empty caches and no storage location yet.
    pub fn new() -> (manager: DataManager)
        ensures
            manager.wf(),
            manager@.location == Seq::<char>::empty(),
            manager@.books == Map::<Seq<char>, BookView>::empty(),
            manager@.covers == Map::<Seq<char>, Seq<u8>>::empty(),
    {
        let manager = DataManager {
            storage_path: String::new(),
            books: StringHashMap::new(),
            book_covers: StringHashMap::new(),
        };
        proof {
            assert(manager@.books =~= Map::<Seq<char>, BookView>::empty());
            assert(manager@.covers =~= Map::<Seq<char>, Seq<u8>>::empty());
        }
        manager
    }

    /// Empties the store and then memory: drops the three tables of the
    /// store, creates them anew, and forgets every book and thumbnail held in
    /// memory.  Fails when the store cannot be opened, when a table cannot be
    /// dropped, or when creating the schema reports a failure; memory is then
    /// left as it was.
    pub fn clear_all(&mut self) -> (outcome: Result<(), Failure>)
        requires
            old(self).wf(),
        ensures
            final(self).wf(),
            is_clear_outcome(old(self)@, final(self)@, outcome),
    {
        let path = store::database_path(self.storage_path.as_str());
        let none: Vec<String> = Vec::new();
        let connection = match store::lift(FailureKind::Connect, store::open(path.as_str())) {
            Ok(connection) => connection,
            Err(failure) => {
                return Err(failure);
            },
        };
        if let Err(failure) = store::lift(
            FailureKind::Query,
            store::execute(&connection, store::DROP_BOOKS, &none),
        ) {
            return Err(failure);
        }
        if let Err(failure) = store::lift(
            FailureKind::Query,
            store::execute(&connection, store::DROP_THUMBNAILS, &none),
        ) {
            return Err(failure);
        }
        if let Err(failure) = store::lift(
            FailureKind::Query,
            store::execute(&connection, store::DROP_CHAPTERS, &none),
        ) {
            return Err(failure);
        }
        let location = self.storage_path.clone();
        let failures = self.init(location);
        match store::schema_outcome(&failures) {
            Ok(()) => {
                self.books.clear();
                self.book_covers.clear();
                proof {
                    assert(final(self)@.books =~= old(self)@.cleared().books);
                    assert(final(self)@.covers =~= old(self)@.cleared().covers);
                }
                Ok(())
            },
            Err(failure) => Err(failure),
        }
    }

    /// Makes `dir` the storage location and creates the three tables of the
    /// store where they are missing; existing tables and their rows are left
    /// alone.  Returns the failures met: the one of opening the store, or
    /// those of creating the tables.
    pub fn init(&mut self, dir: String) -> (failures: Vec<Failure>)
        requires
            old(self).wf(),
        ensures
            final(self).wf(),
            final(self)@ == old(self)@.at(dir@),
            failures.len() <= 3,
            is_init_report(failures@),
    {
        let path = store::database_path(dir.as_str());
        self.storage_path = dir;
        match store::open(path.as_str()) {
            Err(error) => {
                let mut failures: Vec<Failure> = Vec::new();
                failures.push(store::failure(FailureKind::Connect, &error));
                failures
            },
            Ok(connection) => {
                let none: Vec<String> = Vec::new();
                let mut outcomes: Vec<Result<usize, Failure>> = Vec::new();
                outcomes.push(
                    store::lift(
                        FailureKind::Schema,
                        store::execute(&connection, store::CREATE_BOOKS, &none),
                    ),
                );
                outcomes.push(
                    store::lift(
                        FailureKind::Schema,
                        store::execute(&connection, store::CREATE_THUMBNAILS, &none),
                    ),
                );
                outcomes.push(
                    store::lift(
                        FailureKind::Schema,
                        store::execute(&connection, store::CREATE_CHAPTERS, &none),
                    ),
                );
                let failures = store::failures(&outcomes);
                proof {
                    store::lemma_failures_of_members(outcomes@);
                }
                failures
            },
        }
    }

    /// Looks `url` up in the store alone.  A row that the store hands out for
    /// another URL is not taken for the book: that is a failed query.
    pub fn get_book_from_storage(&self, url: String) -> (found: Result<Option<Book>, Failure>)
        ensures
            is_stored_book_answer(url@, found),
    {
        let path = store::database_path(self.storage_path.as_str());
        let connection = match store::lift(FailureKind::Connect, store::open(path.as_str())) {
            Ok(connection) => connection,
            Err(failure) => {
                return Err(failure);
            },
        };
        let params = store::key_params(url.as_str());
        let rows = store::query_books(&connection, store::SELECT_BOOK, &params);
        proof {
            if let Ok(Some(row)) = store::first_of(store::rows_of(rows)) {
                crate::book::lemma_normalized_image(row@);
            }
        }
        store::book_at(&url, store::lift(FailureKind::Query, store::book_from_rows(rows)))
    }

    /// Looks `url` up in memory and, on a miss, in the store.  A book found
    /// in the store is returned without being put into memory.
    pub fn get_book(&self, url: &String) -> (found: Result<Option<Book>, Failure>)
        requires
            self.wf(),
        ensures
            is_book_lookup(self@, url@, found),
    {
        match self.books.get(url.as_str()) {
            Some(book) => {
                Ok(Some(book.clone()))
            },
            None => self.get_book_from_storage(url.clone()),
        }
    }

    /// Writes `book` through: overwrites the store's row for its URL where
    /// there is one, inserts a row where there is none, and then replaces the
    /// entry in memory.  When the store fails, memory is left as it was.
    pub fn set_book(&mut self, book: &Book) -> (outcome: Result<(), Failure>)
        requires
            old(self).wf(),
        ensures
            final(self).wf(),
            match outcome {
                Ok(()) => final(self)@ == old(self)@.with_book(book@),
                Err(failure) => final(self)@ == old(self)@ && (failure.kind
                    == FailureKind::Connect || failure.kind == FailureKind::Query),
            },
    {
        match self.get_book_from_storage(book.url.clone()) {
            Ok(existing) => self.write_book(store::book_statement(&existing), book.clone()),
            Err(failure) => Err(failure),
        }
    }

    /// Runs a statement that writes `book`, then puts `book` into memory.
    fn write_book(&mut self, statement: &str, book: Book) -> (outcome: Result<(), Failure>)
        requires
            old(self).wf(),
        ensures
            final(self).wf(),
            match outcome {
                Ok(()) => final(self)@ == old(self)@.with_book(book@),
                Err(failure) => final(self)@ == old(self)@ && (failure.kind
                    == FailureKind::Connect || failure.kind == FailureKind::Query),
            },
    {
        let path = store::database_path(self.storage_path.as_str());
        let connection = match store::lift(FailureKind::Connect, store::open(path.as_str())) {
            Ok(connection) => connection,
            Err(failure) => {
                return Err(failure);
            },
        };
        let params = store::book_params(&book);
        match store::lift(FailureKind::Query, store::execute(&connection, statement, &params)) {
            Ok(_) => {
                let key = book.url.clone();
                self.books.insert(key, book);
                proof {
                    assert(final(self)@.books =~= old(self)@.with_book(book@).books);
                }
                Ok(())
            },
            Err(failure) => Err(failure),
        }
    }

    /// The books of the library, from the store: each one is flagged as in the
    /// library and none carries the empty image.
    pub fn get_library_books(&self) -> (library: Result<Vec<Book>, Failure>)
        ensures
            match library {
                Ok(books) => forall|i: int|
                    0 <= i < books.len() ==> {
                        &&& (#[trigger] books[i]).in_library
                        &&& books[i]@.image != Some(Seq::<char>::empty())
                    },
                Err(failure) => failure.kind == FailureKind::Connect || failure.kind
                    == FailureKind::Query,
            },
    {
        let path = store::database_path(self.storage_path.as_str());
        let connection = match store::lift(FailureKind::Connect, store::open(path.as_str())) {
            Ok(connection) => connection,
            Err(failure) => {
                return Err(failure);
            },
        };
        let none: Vec<String> = Vec::new();
        let rows = store::query_books(&connection, store::SELECT_LIBRARY, &none);
        match store::lift(FailureKind::Query, rows) {
            Ok(rows) => {
                let books = store::library_from_rows(&rows);
                proof {
                    store::lemma_library_of_members(rows@);
                    assert forall|i: int| 0 <= i < books.len() implies {
                        &&& (#[trigger] books[i]).in_library
                        &&& books[i]@.image != Some(Seq::<char>::empty())
                    } by {
                        assert(store::books_of(books@)[i] == books[i]@);
                    }
                }
                Ok(books)
            },
            Err(failure) => Err(failure),
        }
    }

    /// The books of the library whose name matches `search_term`, the better
    /// match first.
    pub fn get_library_books_like(&self, search_term: String) -> (library: Result<
        Vec<Book>,
        Failure,
    >)
        ensures
            match library {
                Ok(books) => {
                    &&& ranking::is_ranked(store::books_of(books@), search_term@)
                    &&& forall|i: int|
                        0 <= i < books.len() ==> {
                            &&& (#[trigger] books[i]).in_library
                            &&& books[i]@.image != Some(Seq::<char>::empty())
                        }
                },
                Err(failure) => failure.kind == FailureKind::Connect || failure.kind
                    == FailureKind::Query,
            },
    {
        match self.get_library_books() {
            Ok(books) => {
                let ranked = ranking::books_like(&books, search_term.as_str());
                proof {
                    let all = store::books_of(books@);
                    ranking::lemma_books_like(all, search_term@);
                    assert forall|i: int| 0 <= i < ranked.len() implies {
                        &&& (#[trigger] ranked[i]).in_library
                        &&& ranked[i]@.image != Some(Seq::<char>::empty())
                    } by {
                        assert(store::books_of(ranked@)[i] == ranked[i]@);
                        assert(all.contains(store::books_of(ranked@)[i]));
                        let j = choose|j: int| 0 <= j < all.len() && all[j] == ranked[i]@;
                        assert(all[j] == books[j]@);
                    }
                }
                Ok(ranked)
            },
            Err(failure) => Err(failure),
        }
    }

    /// The picture to show for `book`: its thumbnail from memory or, on a
    /// miss, from the store; the fallback cover where neither has one.
    pub fn get_image_handle(&self, book: &Book) -> (handle: ImageHandle)
        ensures
            match self@.cover(book.url@) {
                Some(cached) => handle@ == ImageHandleView::Memory(cached),
                None => handle@ is Path ==> handle@ == ImageHandleView::Path(
                    thumbnail::FALLBACK_COVER@,
                ),
            },
    {
        thumbnail::handle_from(self.get_image_as_bytes(book))
    }

    /// The thumbnail of `book` from memory or, on a miss, from the store.  A
    /// thumbnail found in the store is returned without being put into
    /// memory.
    pub fn get_image_as_bytes(&self, book: &Book) -> (found: Result<
        Option<bytes::Bytes>,
        Failure,
    >)
        ensures
            match self@.cover(book.url@) {
                Some(cached) => found matches Ok(Some(bytes)) && contents(bytes) == cached,
                None => is_stored_cover_answer(found),
            },
    {
        match self.book_covers.get(book.url.as_str()) {
            Some(bytes) => Ok(Some(thumbnail::duplicate(bytes))),
            None => self.get_image_from_storage(book),
        }
    }

    /// Looks the thumbnail of `book` up in the store alone.
    fn get_image_from_storage(&self, book: &Book) -> (found: Result<
        Option<bytes::Bytes>,
        Failure,
    >)
        ensures
            is_stored_cover_answer(found),
    {
        let path = store::database_path(self.storage_path.as_str());
        let connection = match store::lift(FailureKind::Connect, store::open(path.as_str())) {
            Ok(connection) => connection,
            Err(failure) => {
                return Err(failure);
            },
        };
        let params = store::key_params(book.url.as_str());
        let rows = store::query_blobs(&connection, store::SELECT_THUMBNAIL, &params);
        store::lift(FailureKind::Query, thumbnail::thumbnail_from_rows(rows))
    }

    /// Writes the thumbnail of `book` into the store, over the row for the
    /// book's URL where there is one and as a new row where there is none.
    fn store_image(&self, book: &Book, bytes: &bytes::Bytes) -> (outcome: Result<(), Failure>)
        ensures
            outcome matches Err(failure) ==> failure.kind == FailureKind::Connect || failure.kind
                == FailureKind::Query,
    {
        let statement = match self.get_image_from_storage(book) {
            Ok(existing) => store::thumbnail_statement(&existing),
            Err(failure) => {
                return Err(failure);
            },
        };
        let path = store::database_path(self.storage_path.as_str());
        let connection = match store::lift(FailureKind::Connect, store::open(path.as_str())) {
            Ok(connection) => connection,
            Err(failure) => {
                return Err(failure);
            },
        };
        match store::lift(
            FailureKind::Query,
            store::execute_blob(&connection, statement, book.url.as_str(), bytes),
        ) {
            Ok(_) => Ok(()),
            Err(failure) => Err(failure),
        }
    }

    /// Writes the thumbnail of `book` through: into the store first, then
    /// into memory.  When the store fails, memory is left as it was.
    pub fn set_image_as_bytes(&mut self, book: &Book, bytes: bytes::Bytes) -> (outcome: Result<
        (),
        Failure,
    >)
        requires
            old(self).wf(),
        ensures
            final(self).wf(),
            match outcome {
                Ok(()) => final(self)@ == old(self)@.with_cover(book.url@, contents(bytes)),
                Err(failure) => final(self)@ == old(self)@ && (failure.kind
                    == FailureKind::Connect || failure.kind == FailureKind::Query),
            },
    {
        match self.store_image(book, &bytes) {
            Ok(()) => {
                self.set_image_as_bytes_to_cache(book, bytes);
                Ok(())
            },
            Err(failure) => Err(failure),
        }
    }

    /// Puts the thumbnail of `book` into memory alone.  The store is not
    /// touched: this is for previews that are cheap to discard.
    pub fn set_image_as_bytes_to_cache(&mut self, book: &Book, bytes: bytes::Bytes)
        requires
            old(self).wf(),
        ensures
            final(self).wf(),
            final(self)@ == old(self)@.with_cover(book.url@, contents(bytes)),
    {
        self.book_covers.insert(book.url.clone(), bytes);
        proof {
            assert(final(self)@.covers =~= old(self)@.with_cover(
                book.url@,
                contents(bytes),
            ).covers);
        }
    }

    /// Makes the thumbnail that memory holds for `book` durable.  Without a
    /// thumbnail in memory there is nothing to send, and the store is not
    /// touched.
    pub fn send_thumbnail_to_storage(&self, book: Book) -> (outcome: Result<(), Failure>)
        ensures
            match self@.cover(book.url@) {
                Some(_) => outcome matches Err(failure) ==> failure.kind == FailureKind::Connect
                    || failure.kind == FailureKind::Query,
                None => outcome matches Err(failure) && failure.kind == FailureKind::Precondition
                    && failure.detail@ == "No book cover"@,
            },
    {
        match self.book_covers.get(book.url.as_str()) {
            Some(bytes) => self.store_image(&book, bytes),
            None => Err(Failure::precondition("No book cover")),
        }
    }
}

/// A book that has been written through is what a lookup of its URL finds in
/// memory.
pub proof fn lemma_read_after_write(before: DataManagerView, book: BookView)
    ensures
        before.with_book(book).book(book.url) == Some(book),
{
}

/// Writing the same book through twice leaves memory as one write does, with
/// one entry for the book's URL.
pub proof fn lemma_write_is_idempotent(before: DataManagerView, book: BookView)
    ensures
        before.with_book(book).with_book(book) == before.with_book(book),
{
    assert(before.with_book(book).with_book(book).books =~= before.with_book(book).books);
}

/// Of two writes of books with one URL, the later one is what memory holds.
pub proof fn lemma_last_write_wins(before: DataManagerView, first: BookView, second: BookView)
    requires
        first.url == second.url,
    ensures
        before.with_book(first).with_book(second) == before.with_book(second),
{
    assert(before.with_book(first).with_book(second).books =~= before.with_book(second).books);
}

/// After a clear, memory holds no book and no thumbnail, whatever was
/// written before: a lookup goes to the store.
pub proof fn lemma_read_after_clear(before: DataManagerView, url: Seq<char>)
    ensures
        before.cleared().book(url) is None,
        before.cleared().cover(url) is None,
        before.cleared().location == before.location,
        before.cleared().keyed_by_url(),
{
}

/// A write keeps each book in memory under its own URL.
pub proof fn lemma_write_keeps_keys(before: DataManagerView, book: BookView)
    requires
        before.keyed_by_url(),
    ensures
        before.with_book(book).keyed_by_url(),
        before.with_book(book).books.dom() == before.books.dom().insert(book.url),
{
}

/// A write of one book leaves the books at other URLs, the thumbnails and the
/// storage location as they were.
pub proof fn lemma_write_is_local(before: DataManagerView, book: BookView, other: Seq<char>)
    requires
        other != book.url,
    ensures
        before.with_book(book).book(other) == before.book(other),
        before.with_book(book).covers == before.covers,
        before.with_book(book).location == before.location,
{
}

/// A thumbnail that has been put into memory is what a lookup finds there,
/// and the books in memory are as they were.
pub proof fn lemma_cover_read_after_write(before: DataManagerView, url: Seq<char>, bytes: Seq<u8>)
    ensures
        before.with_cover(url, bytes).cover(url) == Some(bytes),
        before.with_cover(url, bytes).books == before.books,
        before.with_cover(url, bytes).location == before.location,
{
}

} // verus!
