//! The errors that the library returns.
use vstd::prelude::*;

use crate::cstring::NulError;
use crate::raw::{GIT_ERROR, GIT_ERROR_NONE};

verus! {

/// An error of libgit2, or one raised in its terms.
#[derive(Debug)]
pub struct Error {
    pub code: i32,
    pub klass: i32,
    pub message: String,
}

/// What an [`Error`] says.
pub struct ErrorView {
    pub code: i32,
    pub klass: i32,
    pub message: Seq<char>,
}

impl View for Error {
    type V = ErrorView;

    open spec fn view(&self) -> ErrorView {
        ErrorView { code: self.code, klass: self.klass, message: self.message@ }
    }
}

/// What libgit2 remembers of its latest failure.
#[derive(Debug)]
pub struct LastError {
    pub klass: i32,
    pub message: String,
}

impl ErrorView {
    /// The error that carries nothing but a message.
    pub open spec fn plain(message: Seq<char>) -> ErrorView {
        ErrorView { code: GIT_ERROR, klass: GIT_ERROR_NONE, message }
    }

    /// The error for text with a zero byte in it.
    pub open spec fn nul() -> ErrorView {
        ErrorView::plain("data contained a nul byte that could not be represented as a string"@)
    }

    /// The error for a call that returned `code`.
    pub open spec fn call(code: i32, last: Option<LastError>) -> ErrorView {
        match last {
            Some(known) => ErrorView { code, klass: known.klass, message: known.message@ },
            None => ErrorView {
                code,
                klass: GIT_ERROR_NONE,
                message: "an unknown git error occurred"@,
            },
        }
    }
}

impl Error {
    /// An error with a message of the caller's.
    pub fn from_str(s: &str) -> (e: Error)
        ensures
            e@ == ErrorView::plain(s@),
    {
        Error { code: GIT_ERROR, klass: GIT_ERROR_NONE, message: s.to_owned() }
    }

    /// The error for a call that returned `code`, told in the words that libgit2
    /// has for it, or in stock words where it has none.
    pub fn last_error(code: i32, last: Option<LastError>) -> (e: Error)
        ensures
            e@ == ErrorView::call(code, last),
    {
        match last {
            Some(known) => Error { code, klass: known.klass, message: known.message },
            None => {
                let mut error = Error::from_str("an unknown git error occurred");
                error.code = code;
                error
            },
        }
    }

    /// The error for text that C cannot take.
    pub fn from_nul(_nul: NulError) -> (e: Error)
        ensures
            e@ == ErrorView::nul(),
    {
        Error::from_str("data contained a nul byte that could not be represented as a string")
    }

    /// The message.
    pub fn message(&self) -> (s: &str)
        ensures
            s@ == self@.message,
    {
        self.message.as_str()
    }
}

/// The kind of an [`IoError`].
#[derive(Clone, Copy, Debug, PartialEq, Eq, Structural)]
pub enum IoErrorKind {
    /// No more specific kind. Every error that the library raises is of this one.
    Other,
    /// A kind that the writer gave it, which the library never looks at.
    Writer,
}

/// A failure to write to a stream, with the text that it shows.
#[derive(Debug)]
pub struct IoError {
    pub kind: IoErrorKind,
    pub message: String,
}

/// What an [`IoError`] says.
pub struct IoErrorView {
    pub kind: IoErrorKind,
    pub message: Seq<char>,
}

impl View for IoError {
    type V = IoErrorView;

    open spec fn view(&self) -> IoErrorView {
        IoErrorView { kind: self.kind, message: self.message@ }
    }
}

impl IoErrorView {
    /// The I/O error of kind [`IoErrorKind::Other`] with this text.
    pub open spec fn other(message: Seq<char>) -> IoErrorView {
        IoErrorView { kind: IoErrorKind::Other, message }
    }
}

impl IoError {
    /// Whether a result is the one stated, its error taken for what it says.
    pub open spec fn same<T>(r: Result<T, IoError>, stated: Result<T, IoErrorView>) -> bool {
        match r {
            Ok(v) => stated == Ok::<T, IoErrorView>(v),
            Err(e) => stated == Err::<T, IoErrorView>(e@),
        }
    }

    /// An error of kind [`IoErrorKind::Other`].
    pub fn other(s: &str) -> (e: IoError)
        ensures
            e@ == IoErrorView::other(s@),
    {
        IoError { kind: IoErrorKind::Other, message: s.to_owned() }
    }

    /// The error as the callers of libgit2 see errors: its text alone is kept.
    pub fn into_error(self) -> (e: Error)
        ensures
            e@ == ErrorView::plain(self@.message),
    {
        Error::from_str(self.message.as_str())
    }
}

} // verus!
