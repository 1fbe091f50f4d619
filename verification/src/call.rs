//! What comes back from a call into libgit2.
use vstd::prelude::*;

use crate::error::{Error, ErrorView, LastError};

verus! {

/// The answer of a libgit2 function: its return code, what libgit2 then remembers
/// of the failure if it is one, and what the call wrote to its out-parameters.
pub struct Reply<T> {
    pub rc: i32,
    pub last_error: Option<LastError>,
    pub out: T,
}

impl<T> Reply<T> {
    /// Whether the call failed: its return code is negative.
    pub open spec fn failed(self) -> bool {
        self.rc < 0
    }

    /// The error of a call that failed.
    pub open spec fn error(self) -> ErrorView {
        ErrorView::call(self.rc, self.last_error)
    }

    /// Whether `r` is what the call comes to: what it wrote, or its error if it failed.
    pub open spec fn gives(self, r: Result<T, Error>) -> bool {
        match r {
            Ok(out) => !self.failed() && out == self.out,
            Err(e) => self.failed() && e@ == self.error(),
        }
    }

    /// What the call wrote, or its error if it failed.
    pub fn check(self) -> (r: Result<T, Error>)
        ensures
            self.gives(r),
    {
        if self.rc < 0 {
            Err(Error::last_error(self.rc, self.last_error))
        } else {
            Ok(self.out)
        }
    }
}

} // verus!
