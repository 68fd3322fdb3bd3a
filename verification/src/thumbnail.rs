//! Cover thumbnails: raw image bytes, keyed elsewhere by the owning book's URL.
use vstd::prelude::*;
use vstd::string::StringExecFns;

use crate::failure::Failure;
use crate::store::{first_of, first_row, rows_of};

verus! {

#[verifier::external_type_specification]
#[verifier::external_body]
pub struct ExBytes(bytes::Bytes);

/// The bytes that a `bytes::Bytes` holds, in order.
pub uninterp spec fn contents(bytes: bytes::Bytes) -> Seq<u8>;

/// `Bytes::from(Vec<u8>)`: the buffer takes over the vector and holds exactly
/// its bytes.
#[verifier::external_body]
pub(crate) fn from_vec(data: Vec<u8>) -> (bytes: bytes::Bytes)
    ensures
        contents(bytes) == data@,
{
    bytes::Bytes::from(data)
}

/// `Bytes::clone`: a second handle on the same memory, which holds the same
/// bytes.
#[verifier::external_body]
pub(crate) fn duplicate(bytes: &bytes::Bytes) -> (copy: bytes::Bytes)
    ensures
        contents(copy) == contents(*bytes),
{
    bytes.clone()
}

/// The cover shown where a book has none.
pub const FALLBACK_COVER: &'static str = "res/covers/rr-image.png";

/// Where the picture of a cover comes from.
#[derive(Debug)]
pub enum ImageHandle {
    /// The image's bytes, held in memory.
    Memory(bytes::Bytes),
    /// A file to load the image from.
    Path(String),
}

/// The mathematical value of an [`ImageHandle`].
pub enum ImageHandleView {
    Memory(Seq<u8>),
    Path(Seq<char>),
}

impl View for ImageHandle {
    type V = ImageHandleView;

    open spec fn view(&self) -> ImageHandleView {
        match self {
            ImageHandle::Memory(bytes) => ImageHandleView::Memory(contents(*bytes)),
            ImageHandle::Path(path) => ImageHandleView::Path(path@),
        }
    }
}

/// The thumbnail that a lookup by URL answers, given what the store returned:
/// the first row's bytes.
pub fn thumbnail_from_rows<E>(rows: Result<Vec<Result<Vec<u8>, E>>, E>) -> (found: Result<
    Option<bytes::Bytes>,
    E,
>)
    ensures
        match first_of(rows_of(rows)) {
            Ok(Some(row)) => found matches Ok(Some(bytes)) && contents(bytes) == row@,
            Ok(None) => found == Ok::<Option<bytes::Bytes>, E>(None),
            Err(e) => found == Err::<Option<bytes::Bytes>, E>(e),
        },
{
    match first_row(rows) {
        Ok(Some(row)) => Ok(Some(from_vec(row))),
        Ok(None) => Ok(None),
        Err(e) => Err(e),
    }
}

/// The handle for what a thumbnail lookup answered: the bytes where it found
/// some, the fallback cover where it found none or failed.
pub open spec fn handle_of(found: Result<Option<bytes::Bytes>, Failure>) -> ImageHandleView {
    match found {
        Ok(Some(bytes)) => ImageHandleView::Memory(contents(bytes)),
        _ => ImageHandleView::Path(FALLBACK_COVER@),
    }
}

/// Chooses the handle for what a thumbnail lookup answered.
pub fn handle_from(found: Result<Option<bytes::Bytes>, Failure>) -> (handle: ImageHandle)
    ensures
        handle@ == handle_of(found),
{
    match found {
        Ok(Some(bytes)) => ImageHandle::Memory(bytes),
        _ => ImageHandle::Path(String::from_str(FALLBACK_COVER)),
    }
}

} // verus!
