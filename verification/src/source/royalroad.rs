//! The provider at royalroad.com: its addresses and the markup of its pages.
use vstd::prelude::*;
use vstd::string::StringExecFns;

use crate::book::{text_of, Book, BookView};
use crate::chapter::{Chapter, ChapterView};
use crate::failure::{Failure, FailureKind};
use crate::markup::{
    first,
    first_match,
    matched_attribute,
    matched_parent_attribute,
    matched_text,
    nested_attribute,
    nested_text,
    optional_texts,
    select_attribute,
    select_nested_attribute,
    select_nested_text,
    select_parent_attribute,
    select_text,
    value_lists,
    value_tables,
};
use crate::source::{RoyalRoadSource, Source};
use crate::store::texts;
use crate::text::{has_part, includes, push_char};

verus! {

/// The provider's host, which is also its identifier.
pub const HOST: &'static str = "https://www.royalroad.com";

/// The path and query of a search, in front of the search term.
pub const SEARCH_PATH: &'static str = "/fictions/search?title=";

/// Selects the entries of a search page.
pub const SEARCH_ENTRY: &'static str = ".fiction-list-item";

/// Selects the heading of a search entry.
pub const ENTRY_HEADING: &'static str = "h2";

/// Selects the link inside the heading of a search entry.
pub const ENTRY_LINK: &'static str = "a";

/// The attribute that holds a link's target.
pub const LINK_TARGET: &'static str = "href";

/// Selects the name of a book on its page.
pub const BOOK_NAME: &'static str = "h1.font-white";

/// Selects the cover of a book on its page.
pub const BOOK_COVER: &'static str = ".thumbnail";

/// The attribute that holds a cover's address.
pub const COVER_ADDRESS: &'static str = "src";

/// The address that the provider gives to a book without a cover.
pub const NO_COVER: &'static str = "/dist/img/nocover-new-min.png";

/// Selects the name of a chapter on its page.
pub const CHAPTER_NAME: &'static str = ".break-word";

/// Selects the icon inside the link to the next chapter.
pub const NEXT_CHAPTER: &'static str = "i.far.fa-chevron-double-right.ml-3";

/// Selects the container of a chapter's text.
pub const CHAPTER_CONTENT: &'static str = ".chapter-content";

/// Selects the paragraphs inside the container of a chapter's text.
pub const PARAGRAPH: &'static str = "p";

/// A character of a search term as it stands in an address: a space becomes
/// a plus sign.
pub open spec fn in_query(c: char) -> char {
    if c == ' ' {
        '+'
    } else {
        c
    }
}

/// The address of the search page for `term`.
pub open spec fn search_address_of(term: Seq<char>) -> Seq<char> {
    HOST@ + SEARCH_PATH@ + term.map_values(|c: char| in_query(c))
}

/// The canonical URLs for the link targets of the entries of a search page:
/// the host in front of each target, entries without a target left out.
pub open spec fn addresses_of(targets: Seq<Option<Seq<char>>>) -> Seq<Seq<char>>
    decreases targets.len(),
{
    if targets.len() == 0 {
        Seq::empty()
    } else {
        let before = addresses_of(targets.drop_last());
        match targets.last() {
            Some(target) => before.push(HOST@ + target),
            None => before,
        }
    }
}

/// The link target of one search entry, given for each heading inside the
/// entry the targets of the links inside the heading: that of the first link
/// of the first heading.  An entry without a heading is malformed; one whose
/// first heading has no link, or whose first link has no target, has none.
pub open spec fn entry_target_of(headings: Seq<Seq<Option<Seq<char>>>>) -> Result<
    Option<Seq<char>>,
    FailureKind,
> {
    if headings.len() == 0 {
        Err(FailureKind::Parse)
    } else if headings[0].len() == 0 {
        Ok(None)
    } else {
        Ok(headings[0][0])
    }
}

/// The link targets of the entries of a search page, or the failure of an
/// entry that is malformed.
pub open spec fn entry_targets_of(entries: Seq<Seq<Seq<Option<Seq<char>>>>>) -> Result<
    Seq<Option<Seq<char>>>,
    FailureKind,
>
    decreases entries.len(),
{
    if entries.len() == 0 {
        Ok(Seq::empty())
    } else {
        match entry_targets_of(entries.drop_last()) {
            Err(kind) => Err(kind),
            Ok(before) => match entry_target_of(entries.last()) {
                Err(kind) => Err(kind),
                Ok(target) => Ok(before.push(target)),
            },
        }
    }
}

/// What the entries of a search page list: the canonical URL of each entry
/// that has a link target, or the failure of an entry that is malformed.
pub open spec fn results_of(entries: Seq<Seq<Seq<Option<Seq<char>>>>>) -> Result<
    Seq<Seq<char>>,
    FailureKind,
> {
    match entry_targets_of(entries) {
        Err(kind) => Err(kind),
        Ok(targets) => Ok(addresses_of(targets)),
    }
}

/// What a search page lists.
pub open spec fn search_of(page: Seq<char>) -> Result<Seq<Seq<char>>, FailureKind> {
    match nested_attribute(page, SEARCH_ENTRY@, ENTRY_HEADING@, ENTRY_LINK@, LINK_TARGET@) {
        None => Err(FailureKind::Parse),
        Some(entries) => results_of(entries),
    }
}

/// The cover of a book given the address on its page: the provider's address
/// for "no cover" stands for none.
pub open spec fn cover_of(address: Option<Seq<char>>) -> Option<Seq<char>> {
    match address {
        Some(address) => if address == NO_COVER@ {
            None
        } else {
            Some(address)
        },
        None => None,
    }
}

/// The book made of the fields found on its page.  A page without a name,
/// or with an empty one, is no book.
pub open spec fn book_of_fields(
    url: Seq<char>,
    name: Option<Seq<char>>,
    cover: Option<Seq<char>>,
) -> Result<BookView, FailureKind> {
    match name {
        None => Err(FailureKind::Missing),
        Some(name) => if name.len() == 0 {
            Err(FailureKind::Missing)
        } else {
            Ok(BookView { source: HOST@, url, image: cover_of(cover), name, in_library: false })
        },
    }
}

/// What the page of a book says, for the book at `url`.
pub open spec fn book_of(url: Seq<char>, page: Seq<char>) -> Result<BookView, FailureKind> {
    match first_match(matched_text(page, BOOK_NAME@)) {
        None => Err(FailureKind::Parse),
        Some(None) => Err(FailureKind::Missing),
        Some(Some(name)) => match first_match(
            matched_attribute(page, BOOK_COVER@, COVER_ADDRESS@),
        ) {
            None => Err(FailureKind::Parse),
            Some(None) => book_of_fields(url, Some(name), None),
            Some(Some(cover)) => book_of_fields(url, Some(name), cover),
        },
    }
}

/// The chapter made of the fields found on its page.
pub open spec fn chapter_of_fields(url: Seq<char>, name: Option<Seq<char>>) -> ChapterView {
    ChapterView { number: None, name, url: Some(url) }
}

/// What the page of a chapter says, for the chapter at `url`: the chapter and
/// the address of the next one.
pub open spec fn chapter_of(url: Seq<char>, page: Seq<char>) -> Result<
    (ChapterView, Option<Seq<char>>),
    FailureKind,
> {
    match first_match(matched_text(page, CHAPTER_NAME@)) {
        None => Err(FailureKind::Parse),
        Some(name) => match first_match(
            matched_parent_attribute(page, NEXT_CHAPTER@, LINK_TARGET@),
        ) {
            None => Err(FailureKind::Parse),
            Some(None) => Ok((chapter_of_fields(url, name), None)),
            Some(Some(next)) => Ok((chapter_of_fields(url, name), next)),
        },
    }
}

/// The body of a chapter: its paragraphs in the order of the page, a line
/// break in front of each.
pub open spec fn body_of(paragraphs: Seq<Seq<char>>) -> Seq<char>
    decreases paragraphs.len(),
{
    if paragraphs.len() == 0 {
        Seq::empty()
    } else {
        body_of(paragraphs.drop_last()) + seq!['\n'] + paragraphs.last()
    }
}

/// The body text on the page of a chapter.  A page without the container of
/// the text has none.
pub open spec fn chapter_text_of(page: Seq<char>) -> Result<Seq<char>, FailureKind> {
    match first_match(nested_text(page, CHAPTER_CONTENT@, PARAGRAPH@)) {
        None => Err(FailureKind::Parse),
        Some(None) => Err(FailureKind::Missing),
        Some(Some(paragraphs)) => Ok(body_of(paragraphs)),
    }
}

/// Whether a result carries the value, or a failure of the kind, that a
/// specification gives.
pub open spec fn texts_agree(found: Result<Vec<String>, Failure>, expected: Result<
    Seq<Seq<char>>,
    FailureKind,
>) -> bool {
    match expected {
        Ok(list) => found matches Ok(strings) && texts(strings@) == list,
        Err(kind) => found matches Err(failure) && failure.kind == kind,
    }
}

/// A page without an element that bears the name is no book, and no book
/// that a page yields has an empty name: each one carries the URL it was
/// fetched from and the provider's identifier, is not in the library, and
/// never has the provider's "no cover" address as its image.
pub proof fn lemma_scraped_book(url: Seq<char>, page: Seq<char>)
    ensures
        matched_text(page, BOOK_NAME@) == Some(Seq::<Seq<char>>::empty()) ==> book_of(url, page)
            == Err::<BookView, FailureKind>(FailureKind::Missing),
        book_of(url, page) matches Ok(book) ==> {
            &&& book.name.len() > 0
            &&& book.url == url
            &&& book.source == HOST@
            &&& !book.in_library
            &&& book.image != Some(NO_COVER@)
        },
{
}

/// Every address of a search result starts with the provider's host, and
/// there are no more addresses than entries.
pub proof fn lemma_addresses(targets: Seq<Option<Seq<char>>>)
    ensures
        addresses_of(targets).len() <= targets.len(),
        forall|i: int|
            0 <= i < addresses_of(targets).len() ==> HOST@.is_prefix_of(
                #[trigger] addresses_of(targets)[i],
            ),
    decreases targets.len(),
{
    if targets.len() > 0 {
        lemma_addresses(targets.drop_last());
        match targets.last() {
            Some(target) => {
                assert((HOST@ + target).subrange(0, HOST@.len() as int) =~= HOST@);
            },
            None => {},
        }
    }
}

/// A malformed entry anywhere on a search page fails the whole page.
proof fn lemma_entry_targets_fail(entries: Seq<Seq<Seq<Option<Seq<char>>>>>, n: int)
    requires
        0 <= n <= entries.len(),
        entry_targets_of(entries.take(n)) is Err,
    ensures
        entry_targets_of(entries) == Err::<Seq<Option<Seq<char>>>, FailureKind>(
            FailureKind::Parse,
        ),
    decreases entries.len() - n,
{
    lemma_entry_targets_kind(entries.take(n));
    if n == entries.len() {
        assert(entries.take(n) =~= entries);
    } else {
        assert(entries.take(n + 1).drop_last() =~= entries.take(n));
        lemma_entry_targets_fail(entries, n + 1);
    }
}

/// The only failure of reading search entries is that of malformed markup.
proof fn lemma_entry_targets_kind(entries: Seq<Seq<Seq<Option<Seq<char>>>>>)
    ensures
        entry_targets_of(entries) matches Err(kind) ==> kind == FailureKind::Parse,
        entry_targets_of(entries) matches Ok(targets) ==> targets.len() == entries.len(),
    decreases entries.len(),
{
    if entries.len() > 0 {
        lemma_entry_targets_kind(entries.drop_last());
    }
}

impl RoyalRoadSource {
    /// The provider, which is known by its host.
    pub fn new() -> (source: RoyalRoadSource)
        ensures
            source.host() == HOST@,
    {
        RoyalRoadSource
    }

    /// Whether `url` belongs to this provider: whether the host occurs in it.
    pub fn serves(url: &str) -> (served: bool)
        ensures
            served == has_part(url@, HOST@),
    {
        includes(url, HOST)
    }

    /// The canonical URLs for the link targets of the entries of a search
    /// page.
    pub fn search_addresses(targets: &Vec<Option<String>>) -> (addresses: Vec<String>)
        ensures
            texts(addresses@) == addresses_of(optional_texts(targets@)),
    {
        let mut addresses: Vec<String> = Vec::new();
        let mut i: usize = 0;
        proof {
            assert(optional_texts(targets@).take(0) =~= Seq::empty());
            assert(texts(addresses@) =~= Seq::empty());
        }
        while i < targets.len()
            invariant
                i <= targets.len(),
                texts(addresses@) == addresses_of(optional_texts(targets@).take(i as int)),
            decreases targets.len() - i,
        {
            proof {
                let all = optional_texts(targets@);
                assert(all.take(i + 1).drop_last() =~= all.take(i as int));
                assert(all.take(i + 1).last() == text_of(targets@[i as int]));
            }
            let ghost before = addresses@;
            match &targets[i] {
                Some(target) => {
                    let address = String::from_str(HOST).concat(target.as_str());
                    addresses.push(address);
                    proof {
                        assert(texts(addresses@) =~= texts(before).push(HOST@ + target@));
                    }
                },
                None => {},
            }
            i += 1;
        }
        proof {
            assert(optional_texts(targets@).take(targets.len() as int) =~= optional_texts(
                targets@,
            ));
        }
        addresses
    }

    /// The link target of one search entry, given for each heading inside
    /// the entry the targets of the links inside the heading.
    pub fn entry_target(headings: &Vec<Vec<Option<String>>>) -> (target: Result<
        Option<String>,
        Failure,
    >)
        ensures
            match entry_target_of(value_lists(headings@)) {
                Ok(expected) => target matches Ok(found) && text_of(found) == expected,
                Err(kind) => target matches Err(failure) && failure.kind == kind
                    && failure.detail@ == "Search entry without a heading"@,
            },
    {
        if headings.len() == 0 {
            return Err(Failure::parse("Search entry without a heading"));
        }
        let links = &headings[0];
        proof {
            assert(value_lists(headings@)[0] == optional_texts(links@));
        }
        if links.len() == 0 {
            return Ok(None);
        }
        proof {
            assert(optional_texts(links@)[0] == text_of(links@[0]));
        }
        match &links[0] {
            Some(target) => Ok(Some(target.clone())),
            None => Ok(None),
        }
    }

    /// What the entries of a search page list, given for each entry and each
    /// heading inside it the targets of the links inside the heading: the
    /// canonical URL of each entry, in the order of the page.  An entry whose
    /// first heading has no link target is left out; an entry without a
    /// heading fails the page.
    pub fn search_results(entries: &Vec<Vec<Vec<Option<String>>>>) -> (found: Result<
        Vec<String>,
        Failure,
    >)
        ensures
            texts_agree(found, results_of(value_tables(entries@))),
            found matches Err(failure) ==> failure.kind == FailureKind::Parse,
    {
        let mut targets: Vec<Option<String>> = Vec::new();
        let mut i: usize = 0;
        proof {
            assert(value_tables(entries@).take(0) =~= Seq::empty());
            assert(optional_texts(targets@) =~= Seq::empty());
        }
        while i < entries.len()
            invariant
                i <= entries.len(),
                entry_targets_of(value_tables(entries@).take(i as int)) == Ok::<
                    Seq<Option<Seq<char>>>,
                    FailureKind,
                >(optional_texts(targets@)),
            decreases entries.len() - i,
        {
            proof {
                let all = value_tables(entries@);
                assert(all.take(i + 1).drop_last() =~= all.take(i as int));
                assert(all.take(i + 1).last() == value_lists(entries@[i as int]@));
            }
            let ghost before = targets@;
            match Self::entry_target(&entries[i]) {
                Ok(target) => {
                    targets.push(target);
                    proof {
                        assert(optional_texts(targets@) =~= optional_texts(before).push(
                            text_of(target),
                        ));
                    }
                },
                Err(failure) => {
                    proof {
                        lemma_entry_targets_fail(value_tables(entries@), i + 1);
                    }
                    return Err(failure);
                },
            }
            i += 1;
        }
        proof {
            assert(value_tables(entries@).take(entries.len() as int) =~= value_tables(entries@));
        }
        Ok(Self::search_addresses(&targets))
    }

    /// The book made of the fields found on the page fetched from `url`: the
    /// text of the name and the address of the cover.
    pub fn book_from_fields(url: String, name: Option<String>, cover: Option<String>) -> (book:
        Result<Book, Failure>)
        ensures
            match book_of_fields(url@, text_of(name), text_of(cover)) {
                Ok(expected) => book matches Ok(found) && found@ == expected,
                Err(kind) => book matches Err(failure) && failure.kind == kind && failure.detail@
                    == "Failed to retrieve name"@,
            },
    {
        let name = match name {
            Some(name) => name,
            None => {
                return Err(Failure::missing("Failed to retrieve name"));
            },
        };
        if name.as_str().unicode_len() == 0 {
            return Err(Failure::missing("Failed to retrieve name"));
        }
        let image = match cover {
            Some(address) => {
                let placeholder = String::from_str(NO_COVER);
                if address == placeholder {
                    None
                } else {
                    Some(address)
                }
            },
            None => None,
        };
        Ok(Book::new(String::from_str(HOST), url, name, image, false))
    }

    /// The chapter made of the fields found on the page fetched from `url`,
    /// beside the address of the next chapter as the page gives it.
    pub fn chapter_from_fields(url: String, name: Option<String>, next: Option<String>) -> (scraped:
        (Chapter, Option<String>))
        ensures
            scraped.0@ == chapter_of_fields(url@, text_of(name)),
            scraped.1 == next,
    {
        (Chapter::new(None, name, Some(url)), next)
    }

    /// The body of a chapter made of its paragraphs.
    pub fn chapter_body(paragraphs: &Vec<String>) -> (body: String)
        ensures
            body@ == body_of(texts(paragraphs@)),
    {
        let mut body = String::new();
        let mut i: usize = 0;
        proof {
            assert(texts(paragraphs@).take(0) =~= Seq::empty());
        }
        while i < paragraphs.len()
            invariant
                i <= paragraphs.len(),
                body@ == body_of(texts(paragraphs@).take(i as int)),
            decreases paragraphs.len() - i,
        {
            proof {
                let all = texts(paragraphs@);
                assert(all.take(i + 1).drop_last() =~= all.take(i as int));
                assert(all.take(i + 1).last() == paragraphs@[i as int]@);
            }
            push_char(&mut body, '\n');
            body.append(paragraphs[i].as_str());
            proof {
                let all = texts(paragraphs@);
                assert(body@ =~= body_of(all.take(i as int)) + seq!['\n'] + paragraphs@[i as int]@);
            }
            i += 1;
        }
        proof {
            assert(texts(paragraphs@).take(paragraphs.len() as int) =~= texts(paragraphs@));
        }
        body
    }

    /// The body text on the page of a chapter.
    fn chapter_text(page: &str) -> (body: Result<String, Failure>)
        ensures
            match chapter_text_of(page@) {
                Ok(expected) => body matches Ok(text) && text@ == expected,
                Err(kind) => body matches Err(failure) && failure.kind == kind,
            },
    {
        match first(select_nested_text(page, CHAPTER_CONTENT, PARAGRAPH)) {
            None => Err(Failure::parse("Invalid selector")),
            Some(None) => Err(Failure::missing("Failed to retrieve chapter content")),
            Some(Some(paragraphs)) => Ok(Self::chapter_body(&paragraphs)),
        }
    }
}

impl Source for RoyalRoadSource {
    open spec fn host(&self) -> Seq<char> {
        HOST@
    }

    fn as_str(&self) -> (host: String) {
        String::from_str(HOST)
    }

    /// The provider's search address with `term` as the title to look for,
    /// each space of `term` written as a plus sign.
    fn search_url(&self, term: &str) -> (address: String)
        ensures
            address@ == search_address_of(term@),
    {
        let mut address = String::from_str(HOST);
        address.append(SEARCH_PATH);
        let n = term.unicode_len();
        let mut i: usize = 0;
        proof {
            assert(term@.take(0).map_values(|c: char| in_query(c)) =~= Seq::empty());
            assert(address@ =~= HOST@ + SEARCH_PATH@ + Seq::empty());
        }
        while i < n
            invariant
                i <= n,
                n == term@.len(),
                address@ == HOST@ + SEARCH_PATH@ + term@.take(i as int).map_values(
                    |c: char| in_query(c),
                ),
            decreases n - i,
        {
            let c = term.get_char(i);
            let written = if c == ' ' {
                '+'
            } else {
                c
            };
            push_char(&mut address, written);
            proof {
                assert(term@.take(i + 1).map_values(|c: char| in_query(c)) =~= term@.take(
                    i as int,
                ).map_values(|c: char| in_query(c)).push(written));
                assert(address@ =~= HOST@ + SEARCH_PATH@ + term@.take(i + 1).map_values(
                    |c: char| in_query(c),
                ));
            }
            i += 1;
        }
        proof {
            assert(term@.take(n as int) =~= term@);
        }
        address
    }

    /// The canonical URL of each entry of the search page, in the order of
    /// the page.  An entry whose heading has no link is left out; an entry
    /// without a heading fails the page.
    fn search(&self, page: &str) -> (found: Result<Vec<String>, Failure>)
        ensures
            texts_agree(found, search_of(page@)),
    {
        match select_nested_attribute(
            page,
            SEARCH_ENTRY,
            ENTRY_HEADING,
            ENTRY_LINK,
            LINK_TARGET,
        ) {
            None => Err(Failure::parse("Invalid selector")),
            Some(entries) => Self::search_results(&entries),
        }
    }

    /// The book on the page: its name is the text of the page's title, its
    /// image the address of the page's cover unless that is the provider's
    /// "no cover".  A page without a title fails.
    fn scrape_book(&self, url: String, page: &str) -> (scraped: Result<Book, Failure>)
        ensures
            match book_of(url@, page@) {
                Ok(expected) => scraped matches Ok(book) && book@ == expected,
                Err(kind) => scraped matches Err(failure) && failure.kind == kind,
            },
    {
        let name = match first(select_text(page, BOOK_NAME)) {
            None => {
                return Err(Failure::parse("Invalid selector"));
            },
            Some(None) => {
                return Self::book_from_fields(url, None, None);
            },
            Some(Some(name)) => name,
        };
        let cover = match first(select_attribute(page, BOOK_COVER, COVER_ADDRESS)) {
            None => {
                return Err(Failure::parse("Invalid selector"));
            },
            Some(None) => None,
            Some(Some(cover)) => cover,
        };
        Self::book_from_fields(url, Some(name), cover)
    }

    /// The chapter on the page: its name is the text of the page's heading,
    /// where there is one.  The address of the next chapter is the target of
    /// the link around the page's "next" icon, where there is one.
    fn scrape_chapter(&self, url: String, page: &str) -> (scraped: Result<
        (Chapter, Option<String>),
        Failure,
    >)
        ensures
            match chapter_of(url@, page@) {
                Ok(expected) => scraped matches Ok(found) && found.0@ == expected.0 && text_of(
                    found.1,
                ) == expected.1,
                Err(kind) => scraped matches Err(failure) && failure.kind == kind,
            },
    {
        let name = match first(select_text(page, CHAPTER_NAME)) {
            None => {
                return Err(Failure::parse("Invalid selector"));
            },
            Some(name) => name,
        };
        let next = match first(select_parent_attribute(page, NEXT_CHAPTER, LINK_TARGET)) {
            None => {
                return Err(Failure::parse("Invalid selector"));
            },
            Some(None) => None,
            Some(Some(next)) => next,
        };
        Ok(Self::chapter_from_fields(url, name, next))
    }

    /// The body of the chapter on the page: the text of each paragraph inside
    /// the page's content container, a line break in front of each.
    fn download_chapter(&self, chapter: &Chapter, page: &str) -> (body: Result<String, Failure>)
        ensures
            match chapter.url {
                Some(_) => match chapter_text_of(page@) {
                    Ok(expected) => body matches Ok(text) && text@ == expected,
                    Err(kind) => body matches Err(failure) && failure.kind == kind,
                },
                None => body matches Err(failure) && failure.detail@ == "No url available"@,
            },
    {
        if let Err(failure) = chapter.address() {
            return Err(failure);
        }
        Self::chapter_text(page)
    }
}

} // verus!
