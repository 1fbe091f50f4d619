//! Flags for filter list loading.
use vstd::prelude::*;

use crate::raw::{
    GIT_FILTER_ALLOW_UNSAFE, GIT_FILTER_ATTRIBUTES_FROM_COMMIT, GIT_FILTER_ATTRIBUTES_FROM_HEAD,
    GIT_FILTER_DEFAULT, GIT_FILTER_NO_SYSTEM_ATTRIBUTES,
};

verus! {

/// Flags for filter list loading. The view is the set of bits as a number.
#[derive(Clone, Copy, Debug, PartialEq, Eq, PartialOrd, Ord, Hash, Structural)]
pub struct FilterFlags {
    bits: u32,
}

/// Sets of bits that have a meaning are closed under what is done to them here.
proof fn known_stay_known(a: u32, b: u32)
    by (bit_vector)
    ensures
        0u32 & 0xf == 0,
        1u32 & 0xf == 1,
        2u32 & 0xf == 2,
        4u32 & 0xf == 4,
        8u32 & 0xf == 8,
        0u32 | 1 | 2 | 4 | 8 == 0xf,
        (a & 0xf) & 0xf == a & 0xf,
        a & 0xf == a && b & 0xf == b ==> (a | b) & 0xf == a | b,
{
}

impl View for FilterFlags {
    type V = u32;

    closed spec fn view(&self) -> u32 {
        self.bits
    }
}

impl FilterFlags {
    #[verifier::type_invariant]
    spec fn only_known(self) -> bool {
        self.bits & 0xf == self.bits
    }

    /// The bits that have a meaning.
    pub open spec fn known() -> u32 {
        0xf
    }

    /// Whether `bits` holds every bit of `part`.
    pub open spec fn holds(bits: u32, part: u32) -> bool {
        bits & part == part
    }

    /// Allow unsafe filters (e.g., filters that execute external commands).
    pub fn allow_unsafe() -> (flags: FilterFlags)
        ensures
            flags@ == GIT_FILTER_ALLOW_UNSAFE,
    {
        proof {
            known_stay_known(0, 0);
        }
        FilterFlags { bits: GIT_FILTER_ALLOW_UNSAFE }
    }

    /// Do not use system gitattributes file.
    pub fn no_system_attributes() -> (flags: FilterFlags)
        ensures
            flags@ == GIT_FILTER_NO_SYSTEM_ATTRIBUTES,
    {
        proof {
            known_stay_known(0, 0);
        }
        FilterFlags { bits: GIT_FILTER_NO_SYSTEM_ATTRIBUTES }
    }

    /// Get attributes from HEAD.
    pub fn attributes_from_head() -> (flags: FilterFlags)
        ensures
            flags@ == GIT_FILTER_ATTRIBUTES_FROM_HEAD,
    {
        proof {
            known_stay_known(0, 0);
        }
        FilterFlags { bits: GIT_FILTER_ATTRIBUTES_FROM_HEAD }
    }

    /// Get attributes from the specified commit (via options).
    pub fn attributes_from_commit() -> (flags: FilterFlags)
        ensures
            flags@ == GIT_FILTER_ATTRIBUTES_FROM_COMMIT,
    {
        proof {
            known_stay_known(0, 0);
        }
        FilterFlags { bits: GIT_FILTER_ATTRIBUTES_FROM_COMMIT }
    }

    /// The bits as libgit2 takes them.
    pub fn bits(&self) -> (bits: u32)
        ensures
            bits == self@,
            bits & FilterFlags::known() == bits,
    {
        proof {
            use_type_invariant(self);
        }
        self.bits
    }

    /// The flags among `bits`; bits without a meaning are dropped.
    pub fn from_bits_truncate(bits: u32) -> (flags: FilterFlags)
        ensures
            flags@ == bits & FilterFlags::known(),
    {
        let known: u32 = GIT_FILTER_DEFAULT | GIT_FILTER_ALLOW_UNSAFE
            | GIT_FILTER_NO_SYSTEM_ATTRIBUTES | GIT_FILTER_ATTRIBUTES_FROM_HEAD
            | GIT_FILTER_ATTRIBUTES_FROM_COMMIT;
        proof {
            known_stay_known(bits, 0);
        }
        FilterFlags { bits: bits & known }
    }

    /// Whether every flag of `other` is set.
    pub fn contains(&self, other: FilterFlags) -> (r: bool)
        ensures
            r == FilterFlags::holds(self@, other@),
    {
        self.bits & other.bits == other.bits
    }
}

impl core::ops::BitOr for FilterFlags {
    type Output = FilterFlags;

    fn bitor(self, other: FilterFlags) -> (flags: FilterFlags)
        ensures
            flags@ == self@ | other@,
    {
        proof {
            use_type_invariant(self);
            use_type_invariant(other);
            known_stay_known(self.bits, other.bits);
        }
        FilterFlags { bits: self.bits | other.bits }
    }
}

impl vstd::std_specs::ops::BitOrSpecImpl for FilterFlags {
    open spec fn obeys_bitor_spec() -> bool {
        true
    }

    open spec fn bitor_req(self, rhs: FilterFlags) -> bool {
        true
    }

    closed spec fn bitor_spec(self, rhs: FilterFlags) -> FilterFlags {
        FilterFlags { bits: self.bits | rhs.bits }
    }
}

impl Default for FilterFlags {
    /// Default behavior.
    fn default() -> (flags: FilterFlags)
        ensures
            flags@ == GIT_FILTER_DEFAULT,
    {
        proof {
            known_stay_known(0, 0);
        }
        FilterFlags { bits: GIT_FILTER_DEFAULT }
    }
}

/// The flags that a mask gives back have a meaning, and the mask keeps what has one:
/// to truncate twice is to truncate once.
pub proof fn law_truncate_idempotent(bits: u32)
    ensures
        (bits & FilterFlags::known()) & FilterFlags::known() == bits & FilterFlags::known(),
        FilterFlags::holds(FilterFlags::known(), bits & FilterFlags::known()),
        FilterFlags::holds(FilterFlags::known(), bits) ==> bits & FilterFlags::known() == bits,
{
    assert((bits & 0xf) & 0xf == bits & 0xf) by (bit_vector);
    assert(0xfu32 & (bits & 0xf) == bits & 0xf) by (bit_vector);
    assert(0xfu32 & bits == bits ==> bits & 0xf == bits) by (bit_vector);
}

/// A union holds exactly the flags that one side or the other holds, taken one by one.
pub proof fn law_union_holds(a: u32, b: u32, flag: u32)
    ensures
        FilterFlags::holds(a | b, a),
        FilterFlags::holds(a | b, b),
        FilterFlags::holds(a, flag) ==> FilterFlags::holds(a | b, flag),
        FilterFlags::holds(b, flag) ==> FilterFlags::holds(a | b, flag),
        flag & (a | b) == (flag & a) | (flag & b),
{
    assert((a | b) & a == a) by (bit_vector);
    assert((a | b) & b == b) by (bit_vector);
    assert(a & flag == flag ==> (a | b) & flag == flag) by (bit_vector);
    assert(b & flag == flag ==> (a | b) & flag == flag) by (bit_vector);
    assert(flag & (a | b) == (flag & a) | (flag & b)) by (bit_vector);
}

} // verus!
