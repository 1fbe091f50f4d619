//! What a filter is told of the file.
use vstd::prelude::*;

use crate::filter::flags::FilterFlags;
use crate::filter::mode::FilterMode;
use crate::oid::Oid;

verus! {

/// Information about the file being filtered, as libgit2 states it.
#[derive(Debug)]
pub struct FilterSource {
    path: Option<Vec<u8>>,
    filemode: u16,
    id: Option<Oid>,
    mode: u32,
    flags: u32,
}

/// What a [`FilterSource`] holds.
pub struct FilterSourceView {
    pub path: Option<Vec<u8>>,
    pub filemode: u16,
    pub id: Option<Oid>,
    pub mode: u32,
    pub flags: u32,
}

impl View for FilterSource {
    type V = FilterSourceView;

    closed spec fn view(&self) -> FilterSourceView {
        FilterSourceView {
            path: self.path,
            filemode: self.filemode,
            id: self.id,
            mode: self.mode,
            flags: self.flags,
        }
    }
}

impl FilterSource {
    /// The source that libgit2 describes by these values; `mode` and `flags` are its
    /// numbers.
    pub fn from_raw(
        path: Option<Vec<u8>>,
        filemode: u16,
        id: Option<Oid>,
        mode: u32,
        flags: u32,
    ) -> (source: FilterSource)
        ensures
            source@ == (FilterSourceView { path, filemode, id, mode, flags }),
    {
        FilterSource { path, filemode, id, mode, flags }
    }

    /// Get the path of the file being filtered.
    pub fn path(&self) -> (path: Option<&[u8]>)
        ensures
            match self@.path {
                Some(bytes) => path matches Some(p) && p@ == bytes@,
                None => path is None,
            },
    {
        match &self.path {
            Some(bytes) => Some(bytes.as_slice()),
            None => None,
        }
    }

    /// Get the file mode of the source file.
    pub fn filemode(&self) -> (filemode: u16)
        ensures
            filemode == self@.filemode,
    {
        self.filemode
    }

    /// Get the OID of the source blob (if available).
    ///
    /// This is available when filtering from ODB to worktree.
    pub fn id(&self) -> (id: Option<Oid>)
        ensures
            id == self@.id,
    {
        self.id
    }

    /// Get the filtering mode (to worktree or to ODB).
    pub fn mode(&self) -> (mode: FilterMode)
        ensures
            mode == FilterMode::of_raw(self@.mode),
    {
        FilterMode::from_raw(self.mode)
    }

    /// Get the filter flags.
    pub fn flags(&self) -> (flags: FilterFlags)
        ensures
            flags@ == self@.flags & FilterFlags::known(),
    {
        FilterFlags::from_bits_truncate(self.flags)
    }
}

} // verus!
