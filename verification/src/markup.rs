//! Queries on the markup of a fetched page.
//!
//! A page is text.  Each query parses it as an HTML document, selects the
//! elements that match a CSS selector and hands out, for each match in the
//! order of the selection, one plain value.  A nested query selects again
//! inside each match, among its descendants.  Parsing markup and matching
//! selectors are the work of the `scraper` crate; what a query answers is a
//! function of the page and the selectors alone, and is known here by name
//! only.
use vstd::prelude::*;

use crate::book::text_of;
use crate::store::texts;

verus! {

/// The text of each element of `page` that matches `selector`: the element's
/// descendant text nodes, concatenated.  `None` where `selector` is no valid
/// selector.
pub uninterp spec fn matched_text(page: Seq<char>, selector: Seq<char>) -> Option<Seq<Seq<char>>>;

/// For each element of `page` that matches `outer`, the text of each of its
/// descendants that matches `inner`.  `None` where one of the two is no valid
/// selector.
pub uninterp spec fn nested_text(page: Seq<char>, outer: Seq<char>, inner: Seq<char>) -> Option<
    Seq<Seq<Seq<char>>>,
>;

/// For each element of `page` that matches `outer`, for each of its
/// descendants that matches `middle`, the value of the attribute `name` of
/// each of that one's descendants that matches `inner`, absent where the
/// element does not carry it.  `None` where one of the three is no valid
/// selector.
pub uninterp spec fn nested_attribute(
    page: Seq<char>,
    outer: Seq<char>,
    middle: Seq<char>,
    inner: Seq<char>,
    name: Seq<char>,
) -> Option<Seq<Seq<Seq<Option<Seq<char>>>>>>;

/// The value of the attribute `name` of each element of `page` that matches
/// `selector`, absent where the element does not carry it.  `None` where
/// `selector` is no valid selector.
pub uninterp spec fn matched_attribute(
    page: Seq<char>,
    selector: Seq<char>,
    name: Seq<char>,
) -> Option<Seq<Option<Seq<char>>>>;

/// The value of the attribute `name` of the parent element of each element
/// of `page` that matches `selector`, absent where the parent is no element
/// or does not carry it.  `None` where `selector` is no valid selector.
pub uninterp spec fn matched_parent_attribute(
    page: Seq<char>,
    selector: Seq<char>,
    name: Seq<char>,
) -> Option<Seq<Option<Seq<char>>>>;

/// The views of a list of texts that a query answered.
pub open spec fn texts_found(found: Option<Vec<String>>) -> Option<Seq<Seq<char>>> {
    match found {
        Some(list) => Some(texts(list@)),
        None => None,
    }
}

/// The views of a sequence of optional strings.
pub open spec fn optional_texts(values: Seq<Option<String>>) -> Seq<Option<Seq<char>>> {
    values.map_values(|value: Option<String>| text_of(value))
}

/// The views of a list of optional values that a query answered.
pub open spec fn values_found(found: Option<Vec<Option<String>>>) -> Option<
    Seq<Option<Seq<char>>>,
> {
    match found {
        Some(list) => Some(optional_texts(list@)),
        None => None,
    }
}

/// The views of a sequence of lists of texts.
pub open spec fn text_lists(lists: Seq<Vec<String>>) -> Seq<Seq<Seq<char>>> {
    lists.map_values(|list: Vec<String>| texts(list@))
}

/// The views of the lists of texts that a nested query answered.
pub open spec fn text_lists_found(found: Option<Vec<Vec<String>>>) -> Option<Seq<Seq<Seq<char>>>> {
    match found {
        Some(lists) => Some(text_lists(lists@)),
        None => None,
    }
}

/// The views of a sequence of lists of optional values.
pub open spec fn value_lists(lists: Seq<Vec<Option<String>>>) -> Seq<Seq<Option<Seq<char>>>> {
    lists.map_values(|list: Vec<Option<String>>| optional_texts(list@))
}

/// The views of a sequence of lists of lists of optional values.
pub open spec fn value_tables(tables: Seq<Vec<Vec<Option<String>>>>) -> Seq<
    Seq<Seq<Option<Seq<char>>>>,
> {
    tables.map_values(|table: Vec<Vec<Option<String>>>| value_lists(table@))
}

/// The views of the lists that a query nested twice answered.
pub open spec fn value_tables_found(found: Option<Vec<Vec<Vec<Option<String>>>>>) -> Option<
    Seq<Seq<Seq<Option<Seq<char>>>>>,
> {
    match found {
        Some(tables) => Some(value_tables(tables@)),
        None => None,
    }
}

/// The first match of a query: `None` where the selector was not valid, else
/// the first of the matches, if there is any.
pub open spec fn first_match<T>(found: Option<Seq<T>>) -> Option<Option<T>> {
    match found {
        None => None,
        Some(list) => if list.len() == 0 {
            Some(None)
        } else {
            Some(Some(list[0]))
        },
    }
}

/// The matches of a query as a sequence.
pub open spec fn matches_of<T>(found: Option<Vec<T>>) -> Option<Seq<T>> {
    match found {
        Some(list) => Some(list@),
        None => None,
    }
}

/// Takes the first match of a query.
pub fn first<T>(found: Option<Vec<T>>) -> (first: Option<Option<T>>)
    ensures
        first == first_match(matches_of(found)),
{
    match found {
        None => None,
        Some(list) => {
            let mut list = list;
            if list.len() == 0 {
                Some(None)
            } else {
                Some(Some(list.swap_remove(0)))
            }
        },
    }
}

/// `scraper::Html::select` on the document parsed from `page`, each match
/// handed out as `ElementRef::text` collected into one string.
#[verifier::external_body]
pub(crate) fn select_text(page: &str, selector: &str) -> (found: Option<Vec<String>>)
    ensures
        texts_found(found) == matched_text(page@, selector@),
{
    let selector = scraper::Selector::parse(selector).ok()?;
    let document = scraper::Html::parse_document(page);
    Some(document.select(&selector).map(|element| element.text().collect()).collect())
}

/// `scraper::Html::select` on the document parsed from `page`, and inside
/// each match `ElementRef::select`, each inner match handed out as
/// `ElementRef::text` collected into one string.
#[verifier::external_body]
pub(crate) fn select_nested_text(page: &str, outer: &str, inner: &str) -> (found: Option<
    Vec<Vec<String>>,
>)
    ensures
        text_lists_found(found) == nested_text(page@, outer@, inner@),
{
    let outer = scraper::Selector::parse(outer).ok()?;
    let inner = scraper::Selector::parse(inner).ok()?;
    let document = scraper::Html::parse_document(page);
    let texts = |element: scraper::ElementRef| {
        element.select(&inner).map(|found| found.text().collect()).collect()
    };
    Some(document.select(&outer).map(texts).collect())
}

/// `scraper::Html::select` on the document parsed from `page`, and
/// `ElementRef::select` twice inside each match, each innermost match handed
/// out as `ElementRef::attr` of `name`.
#[verifier::external_body]
pub(crate) fn select_nested_attribute(
    page: &str,
    outer: &str,
    middle: &str,
    inner: &str,
    name: &str,
) -> (found: Option<Vec<Vec<Vec<Option<String>>>>>)
    ensures
        value_tables_found(found) == nested_attribute(page@, outer@, middle@, inner@, name@),
{
    let outer = scraper::Selector::parse(outer).ok()?;
    let middle = scraper::Selector::parse(middle).ok()?;
    let inner = scraper::Selector::parse(inner).ok()?;
    let document = scraper::Html::parse_document(page);
    let values = |element: scraper::ElementRef| {
        element.select(&inner).map(|found| found.attr(name).map(str::to_owned)).collect()
    };
    let lists = |element: scraper::ElementRef| element.select(&middle).map(values).collect();
    Some(document.select(&outer).map(lists).collect())
}

/// `scraper::Html::select` on the document parsed from `page`, each match
/// handed out as `ElementRef::attr` of `name`.
#[verifier::external_body]
pub(crate) fn select_attribute(page: &str, selector: &str, name: &str) -> (found: Option<
    Vec<Option<String>>,
>)
    ensures
        values_found(found) == matched_attribute(page@, selector@, name@),
{
    let selector = scraper::Selector::parse(selector).ok()?;
    let document = scraper::Html::parse_document(page);
    Some(document.select(&selector).map(|element| element.attr(name).map(str::to_owned)).collect())
}

/// `scraper::Html::select` on the document parsed from `page`, each match
/// handed out as `ElementRef::attr` of `name` on the match's parent element.
#[verifier::external_body]
pub(crate) fn select_parent_attribute(page: &str, selector: &str, name: &str) -> (found: Option<
    Vec<Option<String>>,
>)
    ensures
        values_found(found) == matched_parent_attribute(page@, selector@, name@),
{
    let selector = scraper::Selector::parse(selector).ok()?;
    let document = scraper::Html::parse_document(page);
    let parents = document.select(&selector).map(
        |element| element.parent().and_then(scraper::ElementRef::wrap),
    );
    Some(
        parents.map(
            |parent| parent.and_then(|element| element.attr(name)).map(str::to_owned),
        ).collect(),
    )
}

} // verus!
