//! Numbers that libgit2's headers fix.
use vstd::prelude::*;

verus! {

/// The generic failure code, which callbacks return as well.
pub const GIT_ERROR: i32 = -1;

/// A merge was left conflicted.
pub const GIT_EMERGECONFLICT: i32 = -24;

/// A callback asks libgit2 to act as if the callback were not there.
pub const GIT_PASSTHROUGH: i32 = -30;

/// The error class of an error that libgit2 has not classified.
pub const GIT_ERROR_NONE: i32 = 0;

pub const GIT_FILTER_TO_WORKTREE: u32 = 0;

pub const GIT_FILTER_TO_ODB: u32 = 1;

pub const GIT_FILTER_DEFAULT: u32 = 0x0;

pub const GIT_FILTER_ALLOW_UNSAFE: u32 = 0x1;

pub const GIT_FILTER_NO_SYSTEM_ATTRIBUTES: u32 = 0x2;

pub const GIT_FILTER_ATTRIBUTES_FROM_HEAD: u32 = 0x4;

pub const GIT_FILTER_ATTRIBUTES_FROM_COMMIT: u32 = 0x8;

pub const GIT_FILTER_OPTIONS_VERSION: u32 = 1;

pub const GIT_FILTER_VERSION: u32 = 1;

pub const GIT_FILTER_CRLF_PRIORITY: i32 = 0;

pub const GIT_FILTER_IDENT_PRIORITY: i32 = 100;

pub const GIT_FILTER_DRIVER_PRIORITY: i32 = 200;

pub const GIT_BLOB_FILTER_CHECK_FOR_BINARY: u32 = 0x1;

pub const GIT_BLOB_FILTER_NO_SYSTEM_ATTRIBUTES: u32 = 0x2;

pub const GIT_BLOB_FILTER_ATTRIBUTES_FROM_HEAD: u32 = 0x4;

pub const GIT_BLOB_FILTER_ATTRIBUTES_FROM_COMMIT: u32 = 0x8;

pub const GIT_BLOB_FILTER_OPTIONS_VERSION: i32 = 1;

pub const GIT_MERGE_DRIVER_VERSION: u32 = 1;

} // verus!
