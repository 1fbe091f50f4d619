//! What the operations promise their callers.
//!
//! Each law speaks of calls: that a call may be made, or that it gave a certain result. It
//! says what then holds of what went in and what came out.
pub mod attributes;
pub mod blob;
pub mod custom;
pub mod defaults;
pub mod list;
pub mod merge;
pub mod settings;
pub mod stream;
pub mod text;
