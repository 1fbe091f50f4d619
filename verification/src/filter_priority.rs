//! Filter priority constants for filter registration.
//!
//! These constants define the relative ordering of filters during processing.
//! Filters with lower priority values run first when going to ODB (clean),
//! and filters with higher priority values run first when going to worktree (smudge).
use vstd::prelude::*;

verus! {

/// Priority of the built-in CRLF filter.
pub const CRLF: i32 = crate::raw::GIT_FILTER_CRLF_PRIORITY;

/// Priority of the built-in ident filter.
pub const IDENT: i32 = crate::raw::GIT_FILTER_IDENT_PRIORITY;

/// Priority of filter drivers (configured in .gitattributes).
pub const DRIVER: i32 = crate::raw::GIT_FILTER_DRIVER_PRIORITY;

} // verus!
