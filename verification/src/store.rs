//! What the document store answers. The store itself is reached from
//! outside this library; the handlers decide on these answers.

use vstd::prelude::*;

verus! {

/// The answer to a search for one document.
#[derive(Debug, PartialEq, Eq)]
pub enum Lookup<T> {
    Found(T),
    Missing,
    /// The search failed; the text says why.
    Failed(String),
}

/// The answer to a search for many documents.
#[derive(Debug, PartialEq, Eq)]
pub enum Fetched<T> {
    Rows(Vec<T>),
    /// The search could not be started.
    QueryFailed(String),
    /// The search started, but reading its results failed.
    ReadFailed(String),
}

/// The answer to an insertion.
#[derive(Debug, PartialEq, Eq)]
pub enum Inserted {
    /// The document is stored under this key, given in its hexadecimal form.
    Key(String),
    /// The document is stored, but the store named no usable key.
    NoKey,
    Failed(String),
}

/// The answer to an update or a deletion.
#[derive(Debug, PartialEq, Eq)]
pub enum Changed {
    /// So many documents were changed or removed.
    Count(u64),
    Failed(String),
}

} // verus!
