//! What follows from each message of a reading session.
//!
//! Fetching is not done here.  [`update`] takes a message, changes the data
//! manager as the message asks, and returns the commands that the message
//! calls for: messages to hand back in, pages to fetch, failures to log.
//! Whoever runs the session performs the commands and hands in what they
//! yield.
use vstd::prelude::*;

use crate::book::{Book, BookView};
use crate::data::{is_book_lookup, DataManager, DataManagerView};
use crate::failure::Failure;
use crate::source::royalroad::{search_address_of, HOST};
use crate::source::{RoyalRoadSource, Source};
use crate::text::has_part;
use crate::thumbnail::contents;

verus! {

/// A message of the session.
#[derive(Debug)]
pub enum Message {
    /// Make the given location the storage location and create the schema.
    InitializeStorage(String),
    /// Empty the store.
    ClearStorage,
    /// Look for books by this term.
    ExploreSearch(String),
    /// A search answered with these book URLs.
    ExploreResult(Vec<String>),
    /// A book was scraped.
    AddBook(Book),
    /// The cover of a book was fetched.
    AddThumbnail(Book, bytes::Bytes),
    /// Flip the library flag of a book.
    LibraryToggle(Book),
    /// Scrape the book at this URL anew.
    RefreshBook(String),
    /// Fetch the cover of a book anew.
    RefreshThumbnail(Book),
    /// Nothing to do.
    Ignore,
}

/// What a message calls for.
#[derive(Debug, PartialEq)]
pub enum Command {
    /// Log this description of a failure.
    LogError(String),
    /// Hand the message [`Message::RefreshBook`] in for this URL.
    RefreshBook(String),
    /// Hand the message [`Message::RefreshThumbnail`] in for this book.
    RefreshThumbnail(Book),
    /// Fetch the search page at this address, read it, and hand in
    /// [`Message::ExploreResult`].
    Search(String),
    /// Fetch the page of the book at this URL, read it, and hand in
    /// [`Message::AddBook`].
    ScrapeBook(String),
    /// Fetch the cover of the book from the address, and hand in
    /// [`Message::AddThumbnail`].
    DownloadCover(Book, String),
}

/// The mathematical value of a [`Command`].
pub enum CommandView {
    LogError(Seq<char>),
    RefreshBook(Seq<char>),
    RefreshThumbnail(BookView),
    Search(Seq<char>),
    ScrapeBook(Seq<char>),
    DownloadCover(BookView, Seq<char>),
}

impl View for Command {
    type V = CommandView;

    open spec fn view(&self) -> CommandView {
        match self {
            Command::LogError(text) => CommandView::LogError(text@),
            Command::RefreshBook(url) => CommandView::RefreshBook(url@),
            Command::RefreshThumbnail(book) => CommandView::RefreshThumbnail(book@),
            Command::Search(address) => CommandView::Search(address@),
            Command::ScrapeBook(url) => CommandView::ScrapeBook(url@),
            Command::DownloadCover(book, address) => CommandView::DownloadCover(book@, address@),
        }
    }
}

/// The views of a list of commands.
pub open spec fn commands_of(commands: Seq<Command>) -> Seq<CommandView> {
    commands.map_values(|command: Command| command@)
}

/// Whether each command only logs a failure.
pub open spec fn only_logs(commands: Seq<CommandView>) -> bool {
    forall|i: int| 0 <= i < commands.len() ==> #[trigger] commands[i] is LogError
}

/// The commands that log each of `failures`, in their order.
pub open spec fn logs_of(failures: Seq<Failure>) -> Seq<CommandView> {
    failures.map_values(|failure: Failure| CommandView::LogError(failure.detail@))
}

/// A command for each failure, to log it.
pub fn log_failures(failures: &Vec<Failure>) -> (commands: Vec<Command>)
    ensures
        commands_of(commands@) == logs_of(failures@),
{
    let mut commands: Vec<Command> = Vec::new();
    let mut i: usize = 0;
    while i < failures.len()
        invariant
            i <= failures.len(),
            commands_of(commands@) == logs_of(failures@).take(i as int),
        decreases failures.len() - i,
    {
        let ghost before = commands@;
        commands.push(Command::LogError(failures[i].description()));
        proof {
            assert(commands_of(commands@) =~= commands_of(before).push(
                CommandView::LogError(failures@[i as int].detail@),
            ));
            assert(commands_of(commands@) =~= logs_of(failures@).take(i + 1));
        }
        i += 1;
    }
    proof {
        assert(logs_of(failures@).take(failures.len() as int) =~= logs_of(failures@));
    }
    commands
}

/// What follows from the answer to the lookup of one URL of a search result:
/// a book that is known needs nothing, one that is not is scraped, and a
/// failed lookup is logged.
pub open spec fn lookup_command(url: Seq<char>, lookup: Result<Option<Book>, Failure>) -> Option<
    CommandView,
> {
    match lookup {
        Ok(Some(_)) => None,
        Ok(None) => Some(CommandView::RefreshBook(url)),
        Err(failure) => Some(CommandView::LogError(failure.detail@)),
    }
}

/// What follows from the answers to the lookups of the URLs of a search
/// result, in the order of the URLs.
pub open spec fn explore_commands_of(
    lookups: Seq<(String, Result<Option<Book>, Failure>)>,
) -> Seq<CommandView>
    decreases lookups.len(),
{
    if lookups.len() == 0 {
        Seq::empty()
    } else {
        let before = explore_commands_of(lookups.drop_last());
        match lookup_command(lookups.last().0@, lookups.last().1) {
            Some(command) => before.push(command),
            None => before,
        }
    }
}

/// The commands for a search result, given the answer to the lookup of each
/// of its URLs.
pub fn explore_commands(lookups: &Vec<(String, Result<Option<Book>, Failure>)>) -> (commands: Vec<
    Command,
>)
    ensures
        commands_of(commands@) == explore_commands_of(lookups@),
{
    let mut commands: Vec<Command> = Vec::new();
    let mut i: usize = 0;
    proof {
        assert(lookups@.take(0) =~= Seq::empty());
        assert(commands_of(commands@) =~= Seq::empty());
    }
    while i < lookups.len()
        invariant
            i <= lookups.len(),
            commands_of(commands@) == explore_commands_of(lookups@.take(i as int)),
        decreases lookups.len() - i,
    {
        proof {
            assert(lookups@.take(i + 1).drop_last() =~= lookups@.take(i as int));
            assert(lookups@.take(i + 1).last() == lookups@[i as int]);
        }
        let ghost before = commands@;
        match &lookups[i].1 {
            Ok(Some(_)) => {},
            Ok(None) => {
                commands.push(Command::RefreshBook(lookups[i].0.clone()));
                proof {
                    assert(commands_of(commands@) =~= commands_of(before).push(
                        CommandView::RefreshBook(lookups@[i as int].0@),
                    ));
                }
            },
            Err(failure) => {
                commands.push(Command::LogError(failure.description()));
                proof {
                    assert(commands_of(commands@) =~= commands_of(before).push(
                        CommandView::LogError(failure.detail@),
                    ));
                }
            },
        }
        i += 1;
    }
    proof {
        assert(lookups@.take(lookups.len() as int) =~= lookups@);
    }
    commands
}

/// Whether `lookups` holds, for each of `urls` in their order, the URL and
/// what its lookup may answer when memory is `memory`.
pub open spec fn are_lookups(
    memory: DataManagerView,
    urls: Seq<Seq<char>>,
    lookups: Seq<(String, Result<Option<Book>, Failure>)>,
) -> bool {
    &&& lookups.len() == urls.len()
    &&& forall|i: int|
        0 <= i < urls.len() ==> {
            &&& (#[trigger] lookups[i]).0@ == urls[i]
            &&& is_book_lookup(memory, urls[i], lookups[i].1)
        }
}

/// What follows from a search result when memory is `memory`: each URL is
/// looked up, and the commands are those of the answers, in the order of the
/// URLs.  A URL that memory holds calls for nothing, one that neither memory
/// nor the store holds is scraped, and a lookup that fails is logged.
pub open spec fn follows_explore_result(
    memory: DataManagerView,
    urls: Seq<Seq<char>>,
    commands: Seq<CommandView>,
) -> bool {
    exists|lookups: Seq<(String, Result<Option<Book>, Failure>)>| #[trigger]
        are_lookups(memory, urls, lookups) && commands == explore_commands_of(lookups)
}

/// Whether there are no more commands than URLs, and each command is either
/// the log of a failure or the request to scrape one of the URLs that memory
/// does not hold.
pub open spec fn asks_for_unknown_books(
    memory: DataManagerView,
    urls: Seq<Seq<char>>,
    commands: Seq<CommandView>,
) -> bool {
    &&& commands.len() <= urls.len()
    &&& forall|i: int|
        0 <= i < commands.len() ==> match #[trigger] commands[i] {
            CommandView::LogError(_) => true,
            CommandView::RefreshBook(url) => urls.contains(url) && memory.book(url) is None,
            _ => false,
        }
}

/// Each command for a search result stems from one of the lookups.
proof fn lemma_explore_commands(
    memory: DataManagerView,
    urls: Seq<Seq<char>>,
    lookups: Seq<(String, Result<Option<Book>, Failure>)>,
)
    requires
        lookups.len() <= urls.len(),
        forall|i: int|
            0 <= i < lookups.len() ==> {
                &&& (#[trigger] lookups[i]).0@ == urls[i]
                &&& is_book_lookup(memory, urls[i], lookups[i].1)
            },
    ensures
        asks_for_unknown_books(memory, urls, explore_commands_of(lookups)),
        explore_commands_of(lookups).len() <= lookups.len(),
    decreases lookups.len(),
{
    if lookups.len() > 0 {
        let shorter = lookups.drop_last();
        assert forall|i: int| 0 <= i < shorter.len() implies {
            &&& (#[trigger] shorter[i]).0@ == urls[i]
            &&& is_book_lookup(memory, urls[i], shorter[i].1)
        } by {
            assert(shorter[i] == lookups[i]);
        }
        lemma_explore_commands(memory, urls, shorter);
        let last = lookups.len() - 1;
        assert(lookups.last() == lookups[last]);
        assert(urls.contains(urls[last]));
    }
}

/// A search result never asks for a book that memory holds: it calls for no
/// more commands than it has URLs, and each one logs a failure or asks for
/// one of the URLs that memory does not hold.  Where memory holds every URL,
/// nothing is called for.
pub proof fn lemma_explore_result(
    memory: DataManagerView,
    urls: Seq<Seq<char>>,
    commands: Seq<CommandView>,
)
    requires
        follows_explore_result(memory, urls, commands),
    ensures
        asks_for_unknown_books(memory, urls, commands),
        (forall|i: int| 0 <= i < urls.len() ==> memory.book(#[trigger] urls[i]) is Some)
            ==> commands.len() == 0,
{
    let lookups = choose|lookups: Seq<(String, Result<Option<Book>, Failure>)>| #[trigger]
        are_lookups(memory, urls, lookups) && commands == explore_commands_of(lookups);
    lemma_explore_commands(memory, urls, lookups);
    if forall|i: int| 0 <= i < urls.len() ==> memory.book(#[trigger] urls[i]) is Some {
        lemma_known_books_call_for_nothing(lookups);
    }
}

/// Lookups that all find a book call for nothing.
proof fn lemma_known_books_call_for_nothing(
    lookups: Seq<(String, Result<Option<Book>, Failure>)>,
)
    requires
        forall|i: int| 0 <= i < lookups.len() ==> (#[trigger] lookups[i]).1 matches Ok(Some(_)),
    ensures
        explore_commands_of(lookups).len() == 0,
    decreases lookups.len(),
{
    if lookups.len() > 0 {
        let shorter = lookups.drop_last();
        assert forall|i: int| 0 <= i < shorter.len() implies (#[trigger] shorter[i]).1 matches Ok(
            Some(_),
        ) by {
            assert(shorter[i] == lookups[i]);
        }
        lemma_known_books_call_for_nothing(shorter);
        assert(lookups.last() == lookups[lookups.len() - 1]);
    }
}

/// What follows from a written book: memory holds the book and its cover is
/// refreshed, or the write failed, memory is as before and the failure is
/// logged.
pub open spec fn follows_add_book(
    before: DataManagerView,
    book: BookView,
    after: DataManagerView,
    commands: Seq<CommandView>,
) -> bool {
    ||| after == before.with_book(book) && commands == seq![CommandView::RefreshThumbnail(book)]
    ||| after == before && commands.len() == 1 && commands[0] is LogError
}

/// What follows from the toggle of a book's library flag.  On success memory
/// holds the book with the flag flipped and nothing is to be done; on failure
/// the one command logs it.  A cover is put into memory only for a book that
/// enters the library, and only as it was found.
pub open spec fn follows_library_toggle(
    before: DataManagerView,
    book: BookView,
    after: DataManagerView,
    commands: Seq<CommandView>,
) -> bool {
    let toggled = book.toggled();
    &&& commands.len() <= 1
    &&& only_logs(commands)
    &&& after.location == before.location
    &&& after.books == before.books || after.books == before.with_book(toggled).books
    &&& commands.len() == 0 ==> after.books == before.with_book(toggled).books
    &&& after.covers.remove(toggled.url) == before.covers.remove(toggled.url)
    &&& before.cover(toggled.url) is Some || !toggled.in_library ==> after.covers == before.covers
}

/// What follows from the request to scrape a book anew: its page is fetched
/// where the provider serves its URL, and nothing is done where it does not.
pub open spec fn refresh_book_of(url: Seq<char>) -> Seq<CommandView> {
    if has_part(url, HOST@) {
        seq![CommandView::ScrapeBook(url)]
    } else {
        Seq::empty()
    }
}

/// What follows from the request to fetch a book's cover anew: the cover is
/// fetched where the book has an image, and nothing is done where it has
/// none.
pub open spec fn refresh_thumbnail_of(book: BookView) -> Seq<CommandView> {
    match book.image {
        Some(address) => seq![CommandView::DownloadCover(book, address)],
        None => Seq::empty(),
    }
}

/// What follows from `message` when the manager is at `before`: the manager
/// after it and the commands it calls for.
pub open spec fn follows(
    before: DataManagerView,
    message: Message,
    after: DataManagerView,
    commands: Seq<CommandView>,
) -> bool {
    match message {
        Message::InitializeStorage(dir) => {
            &&& after == before.at(dir@)
            &&& commands.len() <= 3
            &&& only_logs(commands)
        },
        Message::ClearStorage => {
            ||| after == before.cleared() && commands.len() == 0
            ||| after == before && commands.len() == 1 && commands[0] is LogError
        },
        Message::ExploreSearch(term) => {
            &&& after == before
            &&& commands == seq![CommandView::Search(search_address_of(term@))]
        },
        Message::ExploreResult(urls) => {
            &&& after == before
            &&& follows_explore_result(before, crate::store::texts(urls@), commands)
        },
        Message::AddBook(book) => follows_add_book(before, book@, after, commands),
        Message::AddThumbnail(book, bytes) => {
            &&& after == before.with_cover(book.url@, contents(bytes))
            &&& commands.len() == 0
        },
        Message::LibraryToggle(book) => follows_library_toggle(before, book@, after, commands),
        Message::RefreshBook(url) => {
            &&& after == before
            &&& commands == refresh_book_of(url@)
        },
        Message::RefreshThumbnail(book) => {
            &&& after == before
            &&& commands == refresh_thumbnail_of(book@)
        },
        Message::Ignore => {
            &&& after == before
            &&& commands.len() == 0
        },
    }
}

/// Looks each URL of a search result up and asks for the books that are not
/// known yet.
pub fn explore_result(manager: &DataManager, urls: &Vec<String>) -> (commands: Vec<Command>)
    requires
        manager.wf(),
    ensures
        follows_explore_result(manager@, crate::store::texts(urls@), commands_of(commands@)),
{
    let mut lookups: Vec<(String, Result<Option<Book>, Failure>)> = Vec::new();
    let mut i: usize = 0;
    while i < urls.len()
        invariant
            i <= urls.len(),
            manager.wf(),
            lookups.len() == i,
            forall|k: int|
                0 <= k < i ==> {
                    &&& (#[trigger] lookups@[k]).0@ == urls@[k]@
                    &&& is_book_lookup(manager@, urls@[k]@, lookups@[k].1)
                },
        decreases urls.len() - i,
    {
        let found = manager.get_book(&urls[i]);
        lookups.push((urls[i].clone(), found));
        i += 1;
    }
    let commands = explore_commands(&lookups);
    proof {
        let all = crate::store::texts(urls@);
        assert forall|k: int| 0 <= k < all.len() implies {
            &&& (#[trigger] lookups@[k]).0@ == all[k]
            &&& is_book_lookup(manager@, all[k], lookups@[k].1)
        } by {
            assert(all[k] == urls@[k]@);
        }
        assert(are_lookups(manager@, all, lookups@));
    }
    commands
}

/// Writes a scraped book through and asks for its cover.
pub fn add_book(manager: &mut DataManager, book: Book) -> (commands: Vec<Command>)
    requires
        old(manager).wf(),
    ensures
        final(manager).wf(),
        follows_add_book(old(manager)@, book@, final(manager)@, commands_of(commands@)),
{
    let mut commands: Vec<Command> = Vec::new();
    match manager.set_book(&book) {
        Ok(()) => {
            commands.push(Command::RefreshThumbnail(book));
            proof {
                assert(commands_of(commands@) =~= seq![CommandView::RefreshThumbnail(book@)]);
            }
        },
        Err(failure) => {
            commands.push(Command::LogError(failure.description()));
        },
    }
    commands
}

/// Flips the library flag of `book` and writes the book through.  The cover
/// of a book that has entered the library is made durable where one is at
/// hand.
pub fn library_toggle(manager: &mut DataManager, book: Book) -> (commands: Vec<Command>)
    requires
        old(manager).wf(),
    ensures
        final(manager).wf(),
        follows_library_toggle(old(manager)@, book@, final(manager)@, commands_of(commands@)),
{
    let mut commands: Vec<Command> = Vec::new();
    let toggled = Book {
        source: book.source,
        url: book.url,
        image: book.image,
        name: book.name,
        in_library: !book.in_library,
    };
    assert(toggled@ == book@.toggled());
    if let Err(failure) = manager.set_book(&toggled) {
        commands.push(Command::LogError(failure.description()));
        return commands;
    }
    let ghost written = manager@;
    if toggled.in_library {
        if let Ok(Some(bytes)) = manager.get_image_as_bytes(&toggled) {
            if let Err(failure) = manager.set_image_as_bytes(&toggled, bytes) {
                commands.push(Command::LogError(failure.description()));
            }
            proof {
                let url = toggled.url@;
                assert(manager@.covers.remove(url) =~= written.covers.remove(url));
                if written.cover(url) is Some {
                    assert(manager@.covers =~= written.covers);
                }
            }
        }
    }
    commands
}

/// Asks for the page of the book at `url` where the provider serves it.
pub fn refresh_book(url: String) -> (commands: Vec<Command>)
    ensures
        commands_of(commands@) == refresh_book_of(url@),
{
    let mut commands: Vec<Command> = Vec::new();
    if RoyalRoadSource::serves(url.as_str()) {
        commands.push(Command::ScrapeBook(url));
        proof {
            assert(commands_of(commands@) =~= seq![CommandView::ScrapeBook(url@)]);
        }
    } else {
        proof {
            assert(commands_of(commands@) =~= Seq::empty());
        }
    }
    commands
}

/// Asks for the cover of `book` where it has an image.
pub fn refresh_thumbnail(book: Book) -> (commands: Vec<Command>)
    ensures
        commands_of(commands@) == refresh_thumbnail_of(book@),
{
    let mut commands: Vec<Command> = Vec::new();
    match book.cover_url() {
        Ok(address) => {
            proof {
                assert(commands_of(commands@.push(Command::DownloadCover(book, address)))
                    =~= seq![CommandView::DownloadCover(book@, address@)]);
            }
            commands.push(Command::DownloadCover(book, address));
        },
        Err(_) => {
            proof {
                assert(commands_of(commands@) =~= Seq::empty());
            }
        },
    }
    commands
}

/// Changes the manager as `message` asks and returns the commands that the
/// message calls for.
pub fn update(manager: &mut DataManager, message: Message) -> (commands: Vec<Command>)
    requires
        old(manager).wf(),
    ensures
        final(manager).wf(),
        follows(old(manager)@, message, final(manager)@, commands_of(commands@)),
{
    match message {
        Message::InitializeStorage(dir) => {
            let failures = manager.init(dir);
            log_failures(&failures)
        },
        Message::ClearStorage => {
            let mut commands: Vec<Command> = Vec::new();
            if let Err(failure) = manager.clear_all() {
                commands.push(Command::LogError(failure.description()));
            }
            commands
        },
        Message::ExploreSearch(term) => {
            let mut commands: Vec<Command> = Vec::new();
            let address = RoyalRoadSource::new().search_url(term.as_str());
            commands.push(Command::Search(address));
            proof {
                assert(commands_of(commands@) =~= seq![
                    CommandView::Search(search_address_of(term@)),
                ]);
            }
            commands
        },
        Message::ExploreResult(urls) => explore_result(manager, &urls),
        Message::AddBook(book) => add_book(manager, book),
        Message::AddThumbnail(book, bytes) => {
            manager.set_image_as_bytes_to_cache(&book, bytes);
            Vec::new()
        },
        Message::LibraryToggle(book) => library_toggle(manager, book),
        Message::RefreshBook(url) => refresh_book(url),
        Message::RefreshThumbnail(book) => refresh_thumbnail(book),
        Message::Ignore => Vec::new(),
    }
}

} // verus!
