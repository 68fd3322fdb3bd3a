//! Content providers.
//!
//! A provider is an external site that offers searchable serial fiction.  The
//! caller fetches pages; a [`Source`] says which address to fetch and reads
//! the fetched page.  Nothing else in this crate depends on a particular
//! provider.
pub mod royalroad;

use vstd::prelude::*;
use vstd::string::StringExecFns;

use crate::book::Book;
use crate::chapter::Chapter;
use crate::failure::{Failure, FailureKind};

verus! {

/// What every provider answers.
///
/// No result is a failure in disguise: a search without matches is an empty
/// list, and a page that cannot be read is a failure of a provider's kind.
pub trait Source {
    /// The provider's identifier: the host that its addresses start with.
    spec fn host(&self) -> Seq<char>;

    /// The provider's identifier.
    fn as_str(&self) -> (host: String)
        ensures
            host@ == self.host(),
    ;

    /// The address of the page that lists the books matching `term`.
    fn search_url(&self, term: &str) -> (address: String)
    ;

    /// Reads a fetched search page: the canonical URLs of the books it lists,
    /// in the order of the page.
    fn search(&self, page: &str) -> (found: Result<Vec<String>, Failure>)
        ensures
            found matches Err(failure) ==> failure.kind.is_provider(),
    ;

    /// Reads the page fetched from `url` as a book.  The book carries `url`
    /// and the provider's identifier, has a name, and is not in the library.
    /// A page on which no name can be found is a failure, never a book
    /// without one.
    fn scrape_book(&self, url: String, page: &str) -> (scraped: Result<Book, Failure>)
        ensures
            match scraped {
                Ok(book) => {
                    &&& book.url@ == url@
                    &&& book.source@ == self.host()
                    &&& book.name@.len() > 0
                    &&& !book.in_library
                },
                Err(failure) => failure.kind.is_provider(),
            },
    ;

    /// Reads the page fetched from `url` as a chapter, together with the
    /// address of the next chapter where the page links to one.
    fn scrape_chapter(&self, url: String, page: &str) -> (scraped: Result<
        (Chapter, Option<String>),
        Failure,
    >)
        ensures
            match scraped {
                Ok((chapter, _)) => chapter@.url == Some(url@),
                Err(failure) => failure.kind.is_provider(),
            },
    ;

    /// Reads the body text of `chapter` from the page fetched from its URL.
    /// A chapter without a URL has no page: that is a failure of its own kind.
    fn download_chapter(&self, chapter: &Chapter, page: &str) -> (body: Result<String, Failure>)
        ensures
            match chapter.url {
                Some(_) => body matches Err(failure) ==> failure.kind.is_provider(),
                None => body matches Err(failure) && failure.kind == FailureKind::Precondition,
            },
    ;
}

/// The text that stands for a provider where one is printed: the word
/// `Source` with the provider's identifier in braces.
pub open spec fn debug_text_of(host: Seq<char>) -> Seq<char> {
    "Source{"@ + host + "}"@
}

/// The text that stands for `source` where it is printed.
pub fn debug_text<S: Source>(source: &S) -> (text: String)
    ensures
        text@ == debug_text_of(source.host()),
{
    let mut text = String::from_str("Source{");
    text.append(source.as_str().as_str());
    text.append("}");
    text
}

/// The provider at royalroad.com.
#[derive(Debug)]
pub struct RoyalRoadSource;

impl Default for RoyalRoadSource {
    fn default() -> (source: RoyalRoadSource) {
        RoyalRoadSource
    }
}

} // verus!
