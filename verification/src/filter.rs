//! Filters: what is done to a file between the object database and the worktree.
pub mod attributes;
pub mod custom;
pub mod flags;
pub mod list;
pub mod mode;
pub mod options;
pub mod source;
pub mod stream;
