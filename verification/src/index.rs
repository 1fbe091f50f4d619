//! Entries of the index.
use vstd::prelude::*;

use crate::oid::Oid;

verus! {

/// A point in time as the index keeps it.
#[derive(Clone, Copy, Debug, PartialEq, Eq, Structural)]
pub struct IndexTime {
    pub seconds: i32,
    pub nanoseconds: u32,
}

/// An entry of the index: what it records of one file.
#[derive(Debug)]
pub struct IndexEntry {
    pub ctime: IndexTime,
    pub mtime: IndexTime,
    pub dev: u32,
    pub ino: u32,
    pub mode: u32,
    pub uid: u32,
    pub gid: u32,
    pub file_size: u32,
    pub id: Oid,
    pub flags: u16,
    pub flags_extended: u16,
    pub path: Vec<u8>,
}

impl IndexEntry {
    /// Whether both entries record the same.
    pub open spec fn same(self, other: IndexEntry) -> bool {
        &&& self.path@ == other.path@
        &&& self == (IndexEntry { path: self.path, ..other })
    }
}

impl Clone for IndexEntry {
    fn clone(&self) -> (copy: IndexEntry)
        ensures
            copy.same(*self),
    {
        let path: Vec<u8> = self.path.clone();
        assert(path@ =~= self.path@);
        IndexEntry {
            ctime: self.ctime,
            mtime: self.mtime,
            dev: self.dev,
            ino: self.ino,
            mode: self.mode,
            uid: self.uid,
            gid: self.gid,
            file_size: self.file_size,
            id: self.id,
            flags: self.flags,
            flags_extended: self.flags_extended,
            path,
        }
    }
}

} // verus!
