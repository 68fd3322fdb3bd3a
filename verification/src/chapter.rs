//! The chapter entity.
use vstd::prelude::*;

use crate::book::text_of;
use crate::failure::{Failure, FailureKind};

verus! {

/// A chapter of a book.  Its `url`, where present, identifies it.
#[derive(Debug, PartialEq)]
pub struct Chapter {
    pub number: Option<u32>,
    pub name: Option<String>,
    pub url: Option<String>,
}

/// The mathematical value of a [`Chapter`].
pub struct ChapterView {
    pub number: Option<u32>,
    pub name: Option<Seq<char>>,
    pub url: Option<Seq<char>>,
}

impl View for Chapter {
    type V = ChapterView;

    open spec fn view(&self) -> ChapterView {
        ChapterView { number: self.number, name: text_of(self.name), url: text_of(self.url) }
    }
}

impl Clone for Chapter {
    fn clone(&self) -> (copy: Chapter)
        ensures
            copy == *self,
    {
        let name = match &self.name {
            Some(s) => Some(s.clone()),
            None => None,
        };
        let url = match &self.url {
            Some(s) => Some(s.clone()),
            None => None,
        };
        Chapter { number: self.number, name, url }
    }
}

impl Default for Chapter {
    fn default() -> (chapter: Chapter)
        ensures
            chapter == (Chapter { number: None, name: None, url: None }),
    {
        Chapter { number: None, name: None, url: None }
    }
}

impl Chapter {
    /// A chapter of the given fields.
    pub fn new(number: Option<u32>, name: Option<String>, url: Option<String>) -> (chapter:
        Chapter)
        ensures
            chapter == (Chapter { number, name, url }),
    {
        Chapter { number, name, url }
    }

    /// The address of the page to fetch for this chapter.  A chapter without
    /// a URL has none.
    pub fn address(&self) -> (address: Result<String, Failure>)
        ensures
            match self.url {
                Some(url) => address matches Ok(a) && a@ == url@,
                None => address matches Err(e) && e.kind == FailureKind::Precondition
                    && e.detail@ == "No url available"@,
            },
    {
        match &self.url {
            Some(url) => Ok(url.clone()),
            None => Err(Failure::precondition("No url available")),
        }
    }
}

} // verus!
