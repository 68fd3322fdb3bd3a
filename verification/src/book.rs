//! The book entity.
use vstd::prelude::*;

use crate::failure::{Failure, FailureKind};

verus! {

/// A book as a provider describes it, identified by its canonical `url`.
#[derive(Debug, PartialEq)]
pub struct Book {
    pub source: String,
    pub url: String,
    pub image: Option<String>,
    pub name: String,
    pub in_library: bool,
}

/// The mathematical value of a [`Book`].
pub struct BookView {
    pub source: Seq<char>,
    pub url: Seq<char>,
    pub image: Option<Seq<char>>,
    pub name: Seq<char>,
    pub in_library: bool,
}

/// The characters of an optional string.
pub open spec fn text_of(text: Option<String>) -> Option<Seq<char>> {
    match text {
        Some(s) => Some(s@),
        None => None,
    }
}

/// An image column as the store holds it: the empty text stands for "no image".
pub open spec fn without_placeholder(image: Option<Seq<char>>) -> Option<Seq<char>> {
    match image {
        Some(s) => if s.len() == 0 {
            None
        } else {
            Some(s)
        },
        None => None,
    }
}

impl View for Book {
    type V = BookView;

    open spec fn view(&self) -> BookView {
        BookView {
            source: self.source@,
            url: self.url@,
            image: text_of(self.image),
            name: self.name@,
            in_library: self.in_library,
        }
    }
}

impl BookView {
    /// The same book with an empty image read as absent.
    pub open spec fn normalized(self) -> BookView {
        BookView { image: without_placeholder(self.image), ..self }
    }

    /// The same book with the library flag flipped.
    pub open spec fn toggled(self) -> BookView {
        BookView { in_library: !self.in_library, ..self }
    }
}

/// A book read from the store never carries the empty image: reading turns
/// it into "no image".
pub proof fn lemma_normalized_image(book: BookView)
    ensures
        book.normalized().image != Some(Seq::<char>::empty()),
        book.normalized().image is Some ==> book.normalized().image == book.image,
        book.normalized().source == book.source,
        book.normalized().url == book.url,
        book.normalized().name == book.name,
        book.normalized().in_library == book.in_library,
{
    if book.normalized().image == Some(Seq::<char>::empty()) {
        assert(Seq::<char>::empty().len() == 0);
    }
}

impl Clone for Book {
    fn clone(&self) -> (copy: Book)
        ensures
            copy == *self,
    {
        let image = match &self.image {
            Some(s) => Some(s.clone()),
            None => None,
        };
        Book {
            source: self.source.clone(),
            url: self.url.clone(),
            image,
            name: self.name.clone(),
            in_library: self.in_library,
        }
    }
}

impl Book {
    /// A book of the given fields.
    pub fn new(
        source: String,
        url: String,
        name: String,
        image: Option<String>,
        in_library: bool,
    ) -> (book: Book)
        ensures
            book == (Book { source, url, image, name, in_library }),
    {
        Book { source, url, image, name, in_library }
    }

    /// Reads an empty image as "no image"; every other field is kept.
    pub fn normalized(self) -> (book: Book)
        ensures
            book@ == self@.normalized(),
    {
        let absent = match &self.image {
            Some(s) => s.as_str().unicode_len() == 0,
            None => false,
        };
        if absent {
            Book {
                source: self.source,
                url: self.url,
                image: None,
                name: self.name,
                in_library: self.in_library,
            }
        } else {
            self
        }
    }

    /// The address of the cover to fetch.  A book without an image has none.
    pub fn cover_url(&self) -> (address: Result<String, Failure>)
        ensures
            match self.image {
                Some(image) => address matches Ok(a) && a@ == image@,
                None => address matches Err(e) && e.kind == FailureKind::Precondition
                    && e.detail@ == "No image url"@,
            },
    {
        match &self.image {
            Some(image) => Ok(image.clone()),
            None => Err(Failure::precondition("No image url")),
        }
    }
}

} // verus!
