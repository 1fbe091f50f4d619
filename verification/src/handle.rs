//! Addresses of objects that libgit2 owns.
use vstd::prelude::*;

verus! {

/// A repository that libgit2 has open, by its address.
#[derive(Debug)]
pub struct Repository {
    raw: usize,
}

impl View for Repository {
    type V = usize;

    closed spec fn view(&self) -> usize {
        self.raw
    }
}

impl Repository {
    /// The repository at this address.
    pub fn from_raw(raw: usize) -> (repo: Repository)
        ensures
            repo@ == raw,
    {
        Repository { raw }
    }

    /// The address.
    pub fn raw(&self) -> (raw: usize)
        ensures
            raw == self@,
    {
        self.raw
    }
}

/// An object of any type, by its address in libgit2.
#[derive(Debug)]
pub struct Object {
    raw: usize,
}

impl View for Object {
    type V = usize;

    closed spec fn view(&self) -> usize {
        self.raw
    }
}

impl Object {
    /// The object at this address.
    pub fn from_raw(raw: usize) -> (object: Object)
        ensures
            object@ == raw,
    {
        Object { raw }
    }

    /// The address.
    pub fn raw(&self) -> (raw: usize)
        ensures
            raw == self@,
    {
        self.raw
    }
}

} // verus!
