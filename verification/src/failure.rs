//! What can go wrong, as a closed set of kinds with a loggable description.
use vstd::prelude::*;
use vstd::string::StringExecFns;

verus! {

/// The kind of a [`Failure`].
#[derive(Clone, Copy, Debug, PartialEq, Eq, Structural)]
pub enum FailureKind {
    /// The store could not be opened.
    Connect,
    /// A statement against the store failed.
    Query,
    /// A table of the store could not be created.
    Schema,
    /// A page could not be fetched.
    Network,
    /// A page does not have the expected markup.
    Parse,
    /// A page lacks a required field.
    Missing,
    /// The operation was invoked with insufficient input.
    Precondition,
}

/// A failure of one operation.  No failure is fatal: the state before the
/// operation stays in place.
#[derive(Debug, PartialEq)]
pub struct Failure {
    pub kind: FailureKind,
    pub detail: String,
}

impl FailureKind {
    /// Whether the kind is one of the store's.
    pub open spec fn is_storage(self) -> bool {
        self == FailureKind::Connect || self == FailureKind::Query || self == FailureKind::Schema
    }

    /// Whether the kind is one of a provider's.
    pub open spec fn is_provider(self) -> bool {
        self == FailureKind::Network || self == FailureKind::Parse || self == FailureKind::Missing
    }
}

impl Clone for Failure {
    fn clone(&self) -> (copy: Failure)
        ensures
            copy == *self,
    {
        Failure { kind: self.kind, detail: self.detail.clone() }
    }
}

impl Failure {
    /// A failure of the given kind and description.
    pub fn new(kind: FailureKind, detail: String) -> (failure: Failure)
        ensures
            failure == (Failure { kind, detail }),
    {
        Failure { kind, detail }
    }

    /// A failure of kind [`FailureKind::Precondition`].
    pub fn precondition(detail: &str) -> (failure: Failure)
        ensures
            failure.kind == FailureKind::Precondition,
            failure.detail@ == detail@,
    {
        Failure { kind: FailureKind::Precondition, detail: String::from_str(detail) }
    }

    /// A failure of kind [`FailureKind::Missing`].
    pub fn missing(detail: &str) -> (failure: Failure)
        ensures
            failure.kind == FailureKind::Missing,
            failure.detail@ == detail@,
    {
        Failure { kind: FailureKind::Missing, detail: String::from_str(detail) }
    }

    /// A failure of kind [`FailureKind::Parse`].
    pub fn parse(detail: &str) -> (failure: Failure)
        ensures
            failure.kind == FailureKind::Parse,
            failure.detail@ == detail@,
    {
        Failure { kind: FailureKind::Parse, detail: String::from_str(detail) }
    }

    /// A failure of kind [`FailureKind::Network`].
    pub fn network(detail: &str) -> (failure: Failure)
        ensures
            failure.kind == FailureKind::Network,
            failure.detail@ == detail@,
    {
        Failure { kind: FailureKind::Network, detail: String::from_str(detail) }
    }

    /// The description to log.
    pub fn description(&self) -> (text: String)
        ensures
            text@ == self.detail@,
    {
        self.detail.clone()
    }
}

} // verus!
