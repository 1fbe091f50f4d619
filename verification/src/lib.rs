//! Filters, blobs and merge drivers of a git library: what is decided around each call
//! into libgit2 and around each callback out of it.
//!
//! What only the outside can do, to call libgit2 or to run a filter with its panics
//! caught, comes to an operation as a function. The operation's `requires` says when that
//! function may be called and with what, and it is called in no other case and with
//! nothing else. Its `ensures` says what the operation comes to for each answer that the
//! function can give.
pub mod blob;
pub mod call;
pub mod cstring;
pub mod error;
pub mod filter;
pub mod filter_priority;
pub mod handle;
pub mod index;
pub mod init;
pub mod laws;
pub mod merge_driver;
pub mod oid;
pub mod raw;

pub use blob::{Blob, BlobFilterCall, BlobFilterFlags, BlobFilterOptions, BlobWriter};
pub use call::Reply;
pub use cstring::{CString, NulError};
pub use error::{Error, IoError, IoErrorKind, LastError};
pub use filter::custom::{
    lookup_filter, register_filter, unregister_filter, Downstream, Filter, FilterStream,
};
pub use filter::flags::FilterFlags;
pub use filter::list::{FileCall, FilterList, LoadCall, LoadExtCall};
pub use filter::mode::FilterMode;
pub use filter::options::FilterOptions;
pub use filter::source::FilterSource;
pub use handle::{Object, Repository};
pub use index::{IndexEntry, IndexTime};
pub use merge_driver::{
    lookup_merge_driver, register_merge_driver, unregister_merge_driver, MergeDriver,
    MergeDriverApplyResult, MergeDriverSource,
};
pub use oid::Oid;
