//! The uniform error container used across the pipeline.
//!
//! Heterogeneous failures cross composition boundaries as a single
//! displayable type, so layers can propagate errors without knowing their
//! concrete origin.  An error is identified by its human-readable message,
//! which is also its abstract view.

use vstd::prelude::*;

verus! {

/// A displayable error container used uniformly across components.
#[derive(Debug)]
pub struct Error {
    msg: String,
}

impl View for Error {
    type V = Seq<char>;

    closed spec fn view(&self) -> Seq<char> {
        self.msg@
    }
}

impl Error {
    /// Create a new `Error` carrying the given message.
    pub fn new(msg: String) -> (e: Error)
        ensures
            e@ == msg@,
    {
        Error { msg }
    }

    /// The human-readable cause of this error.
    pub fn message(&self) -> (m: &String)
        ensures
            m@ == self@,
    {
        &self.msg
    }
}

} // verus!
