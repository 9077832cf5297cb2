//! The answers that the handlers decide on.

use vstd::prelude::*;

verus! {

/// The store could not be asked, or could not write.
#[derive(Debug, Clone, Copy, PartialEq, Eq)]
pub struct StoreFailure;

/// A complete answer: a status and a fixed JSON body.
#[derive(Debug, Clone, Copy, PartialEq, Eq)]
pub struct Reply {
    pub status: u16,
    pub body: &'static str,
}

/// How a request about a record ends.
#[derive(Debug, Clone, PartialEq, Eq)]
pub enum Answer<T> {
    /// The client gets the record, under this status.
    Record { status: u16, record: T },
    /// The client gets this fixed answer.
    Fixed(Reply),
}

} // verus!
