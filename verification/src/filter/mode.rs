//! The direction of a filter.
use vstd::prelude::*;

use crate::raw::{GIT_FILTER_TO_ODB, GIT_FILTER_TO_WORKTREE};

verus! {

/// Direction of filtering operation.
#[derive(Copy, Clone, Debug, PartialEq, Eq, Structural)]
pub enum FilterMode {
    /// Smudge: ODB to filesystem (checkout)
    ToWorktree,
    /// Clean: filesystem to ODB (commit)
    ToOdb,
}

impl FilterMode {
    /// The mode that libgit2 means by `raw`. A number that it does not use is taken
    /// for a checkout.
    pub open spec fn of_raw(raw: u32) -> FilterMode {
        if raw == GIT_FILTER_TO_ODB {
            FilterMode::ToOdb
        } else {
            FilterMode::ToWorktree
        }
    }

    /// The number that libgit2 has for the mode.
    pub open spec fn as_raw(self) -> u32 {
        match self {
            FilterMode::ToWorktree => GIT_FILTER_TO_WORKTREE,
            FilterMode::ToOdb => GIT_FILTER_TO_ODB,
        }
    }

    /// Create a FilterMode from the raw libgit2 value.
    pub fn from_raw(raw: u32) -> (mode: FilterMode)
        ensures
            mode == FilterMode::of_raw(raw),
    {
        match raw {
            GIT_FILTER_TO_WORKTREE => FilterMode::ToWorktree,
            GIT_FILTER_TO_ODB => FilterMode::ToOdb,
            _ => FilterMode::ToWorktree,
        }
    }

    /// The raw libgit2 value.
    pub fn raw(&self) -> (raw: u32)
        ensures
            raw == self.as_raw(),
    {
        match *self {
            FilterMode::ToWorktree => GIT_FILTER_TO_WORKTREE,
            FilterMode::ToOdb => GIT_FILTER_TO_ODB,
        }
    }
}

/// A mode survives the way to libgit2 and back.
pub proof fn law_mode_round_trip(mode: FilterMode)
    ensures
        FilterMode::of_raw(mode.as_raw()) == mode,
{
}

/// The modes that libgit2 knows keep their numbers; only numbers that it does not use
/// are changed on the way through a [`FilterMode`].
pub proof fn law_raw_round_trip(raw: u32)
    ensures
        FilterMode::of_raw(raw).as_raw() == raw <==> (raw == GIT_FILTER_TO_WORKTREE || raw
            == GIT_FILTER_TO_ODB),
{
}

} // verus!
