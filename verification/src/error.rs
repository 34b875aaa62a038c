//! The library's error type.

use vstd::prelude::*;
use crate::text::owned;

verus! {

/// Errors reported by the client.
#[derive(Debug, Clone, PartialEq, Eq)]
pub enum Error {
    /// The server answered with, or sent, something the client did not expect.
    ProtocolError(String),
    /// The Playwright server process could not be driven.
    ServerError(String),
    /// An operation did not complete in time.
    Timeout(String),
    /// An auto-retrying assertion did not hold before its timeout.
    AssertionTimeout(String),
    /// The caller passed an argument the operation cannot use.
    InvalidArgument(String),
    /// A path could not be used.
    InvalidPath(String),
    /// No element matched a selector.
    ElementNotFound(String),
    /// The page, context or browser an operation targets has closed.
    TargetClosed { target_type: String, context: String },
    /// A protocol object had another type than the one expected.
    TypeMismatch { guid: String, expected: String, actual: String },
}

/// Reports a closed target as the page, keeping its context; leaves every
/// other error as it is (used when a page delegates to its main frame).
pub fn closed_as_page(e: Error) -> (r: Error)
    ensures
        match e {
            Error::TargetClosed { target_type: _, context } => r matches Error::TargetClosed {
                target_type: t,
                context: c,
            } && t@ == "Page"@ && c == context,
            _ => r == e,
        },
{
    match e {
        Error::TargetClosed { target_type: _, context } => Error::TargetClosed {
            target_type: owned("Page"),
            context,
        },
        other => other,
    }
}

} // verus!
