//! The errors that providers and the resolver report.

use vstd::prelude::*;
use vstd::string::StringExecFns;
use crate::text::has_suffix;

verus! {

/// What went wrong with a lookup. Only `NotFound` lets a search go on to the
/// next provider; every other kind is a hard failure.
#[derive(Clone, Copy, Debug, PartialEq, Eq, Structural)]
pub enum ErrorKind {
    /// The provider does not have the path at all.
    NotFound,
    /// The provider has the path but may not serve it.
    PermissionDenied,
    /// The request itself was malformed.
    InvalidInput,
    /// The backing store holds data that cannot be decoded.
    InvalidData,
    /// The backing store ended before the resource did.
    UnexpectedEof,
    /// Any other failure of the backing store.
    Other,
}

/// An error of a lookup: its kind and a message for the user.
#[derive(Debug)]
pub struct Error {
    kind: ErrorKind,
    message: String,
}

/// What an `Error` holds, as mathematical values.
pub struct ErrorView {
    pub kind: ErrorKind,
    pub message: Seq<char>,
}

impl View for Error {
    type V = ErrorView;

    closed spec fn view(&self) -> ErrorView {
        ErrorView { kind: self.kind, message: self.message@ }
    }
}

/// The text of the error that a search reports when no provider has `path`.
pub open spec fn not_found_message(path: Seq<char>) -> Seq<char> {
    "file not found: "@ + path
}

/// The error that a search reports when no provider has `path`.
pub open spec fn not_found(path: Seq<char>) -> ErrorView {
    ErrorView { kind: ErrorKind::NotFound, message: not_found_message(path) }
}

/// The message for a path ends with that path, letter for letter.
pub proof fn lemma_not_found_names_path(path: Seq<char>)
    ensures
        has_suffix(not_found_message(path), path),
        not_found(path).kind == ErrorKind::NotFound,
{
    let m = not_found_message(path);
    assert(m.subrange(m.len() - path.len(), m.len() as int) =~= path);
}

impl Error {
    /// An error of the given kind with the given message.
    pub fn new(kind: ErrorKind, message: String) -> (e: Error)
        ensures
            e@ == (ErrorView { kind, message: message@ }),
    {
        Error { kind, message }
    }

    /// The error for a path that no provider has. The message names the path
    /// as the caller wrote it.
    pub fn not_found(path: &str) -> (e: Error)
        ensures
            e@ == not_found(path@),
    {
        let mut message = String::from_str("file not found: ");
        message.append(path);
        Error { kind: ErrorKind::NotFound, message }
    }

    /// The kind of this error.
    pub fn kind(&self) -> (k: ErrorKind)
        ensures
            k == self@.kind,
    {
        self.kind
    }

    /// The message of this error.
    pub fn message(&self) -> (m: &str)
        ensures
            m@ == self@.message,
    {
        self.message.as_str()
    }

    /// Whether a search may go on to the next provider after this error.
    pub fn is_not_found(&self) -> (b: bool)
        ensures
            b == (self@.kind == ErrorKind::NotFound),
    {
        self.kind == ErrorKind::NotFound
    }
}

} // verus!
