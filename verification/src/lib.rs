//! A source-backed content cache for a reading application.
//!
//! Books, chapters and cover thumbnails come from a web provider and are kept
//! in two tiers: an in-memory cache owned by the [`data::DataManager`] and a
//! relational store on disk.  Reads go memory first, then the store; writes go
//! to the store first and to memory only once the store has accepted them.
//!
//! Fetching pages is left to the caller.  A [`source::Source`] turns a request
//! into an address and a fetched page into values.
pub mod book;
pub mod chapter;
pub mod data;
pub mod failure;
pub mod layout;
pub mod markup;
pub mod ranking;
pub mod source;
pub mod store;
pub mod text;
pub mod thumbnail;
pub mod update;
