//! Options for filter list loading.
use vstd::prelude::*;

use crate::filter::flags::FilterFlags;
use crate::oid::Oid;
use crate::raw::GIT_FILTER_OPTIONS_VERSION;

verus! {

/// Options for extended filter list loading.
#[derive(Clone, Copy, Debug)]
pub struct FilterOptions {
    version: u32,
    flags: u32,
    attr_commit_id: Oid,
}

/// What [`FilterOptions`] hold.
pub struct FilterOptionsView {
    pub version: u32,
    pub flags: u32,
    pub attr_commit_id: Oid,
}

impl View for FilterOptions {
    type V = FilterOptionsView;

    closed spec fn view(&self) -> FilterOptionsView {
        FilterOptionsView {
            version: self.version,
            flags: self.flags,
            attr_commit_id: self.attr_commit_id,
        }
    }
}

impl FilterOptionsView {
    /// Whether the options are those that nothing has been set in.
    pub open spec fn is_new(self) -> bool {
        &&& self.version == GIT_FILTER_OPTIONS_VERSION
        &&& self.flags == 0
        &&& self.attr_commit_id@ == Oid::zero_bytes()
    }

    /// The options with these flags in place of theirs.
    pub open spec fn with_flags(self, flags: FilterFlags) -> FilterOptionsView {
        FilterOptionsView { flags: flags@, ..self }
    }

    /// The options with this commit in place of theirs.
    pub open spec fn with_attr_commit(self, oid: Oid) -> FilterOptionsView {
        FilterOptionsView { attr_commit_id: oid, ..self }
    }
}

impl FilterOptions {
    /// Create a new set of filter options with default values.
    pub fn new() -> (opts: FilterOptions)
        ensures
            opts@.is_new(),
    {
        FilterOptions { version: GIT_FILTER_OPTIONS_VERSION, flags: 0, attr_commit_id: Oid::zero() }
    }

    /// Set flags for filter loading.
    pub fn flags(&mut self, flags: FilterFlags) -> (this: &mut Self)
        ensures
            (*this)@ == old(self)@.with_flags(flags),
            *final(self) == *final(this),
    {
        self.flags = flags.bits();
        self
    }

    /// Set the commit from which to read attributes.
    ///
    /// Only used when ATTRIBUTES_FROM_COMMIT flag is set.
    pub fn attr_commit(&mut self, oid: Oid) -> (this: &mut Self)
        ensures
            (*this)@ == old(self)@.with_attr_commit(oid),
            *final(self) == *final(this),
    {
        self.attr_commit_id = oid;
        self
    }

    /// The version, the flags and the commit, as libgit2 takes them.
    pub fn raw(&self) -> (raw: (u32, u32, Oid))
        ensures
            raw == (self@.version, self@.flags, self@.attr_commit_id),
    {
        (self.version, self.flags, self.attr_commit_id)
    }
}

impl Default for FilterOptions {
    fn default() -> (opts: FilterOptions)
        ensures
            opts@.is_new(),
    {
        FilterOptions::new()
    }
}

/// The two setters can come in either order, and of two calls of one setter the later
/// counts.
pub proof fn law_setters(opts: FilterOptionsView, a: FilterFlags, b: FilterFlags, x: Oid, y: Oid)
    ensures
        opts.with_flags(a).with_attr_commit(x) == opts.with_attr_commit(x).with_flags(a),
        opts.with_flags(a).with_flags(b) == opts.with_flags(b),
        opts.with_attr_commit(x).with_attr_commit(y) == opts.with_attr_commit(y),
{
}

} // verus!
