//! Modes, flags, options and sources.
use vstd::prelude::*;

use crate::blob::{BlobFilterFlags, BlobFilterOptions};
use crate::filter::flags::FilterFlags;
use crate::filter::mode::FilterMode;
use crate::filter::options::FilterOptions;
use crate::filter::source::FilterSource;
use crate::oid::Oid;

verus! {

/// libgit2's number for a mode is read back as that mode, and any other number as a
/// checkout.
pub proof fn law_modes(mode: FilterMode, raw: u32, back: FilterMode, any: u32, read: FilterMode)
    requires
        call_ensures(FilterMode::raw, (&mode,), raw),
        call_ensures(FilterMode::from_raw, (raw,), back),
        call_ensures(FilterMode::from_raw, (any,), read),
    ensures
        back == mode,
        raw == 0 <==> mode is ToWorktree,
        raw == 1 <==> mode is ToOdb,
        read is ToOdb <==> any == 1,
{
}

/// Each flag is one bit of its own, new flags have none, and the bits are what libgit2 is
/// told.
pub proof fn law_filter_flags(
    a: FilterFlags,
    b: FilterFlags,
    c: FilterFlags,
    d: FilterFlags,
    none: FilterFlags,
    flags: FilterFlags,
    bits: u32,
)
    requires
        call_ensures(FilterFlags::allow_unsafe, (), a),
        call_ensures(FilterFlags::no_system_attributes, (), b),
        call_ensures(FilterFlags::attributes_from_head, (), c),
        call_ensures(FilterFlags::attributes_from_commit, (), d),
        call_ensures(<FilterFlags as Default>::default, (), none),
        call_ensures(FilterFlags::bits, (&flags,), bits),
    ensures
        a@ == 1,
        b@ == 2,
        c@ == 4,
        d@ == 8,
        none@ == 0,
        bits == flags@,
        bits < 16,
{
    assert(bits & 0xf == bits ==> bits < 16) by (bit_vector);
}

/// Of any number the four bits with a meaning are kept and no others, a set contains
/// another exactly if it has all of its bits, and a union has the bits of both.
pub proof fn law_filter_flag_sets(
    number: u32,
    kept: FilterFlags,
    x: FilterFlags,
    y: FilterFlags,
    contains: bool,
    union: FilterFlags,
    flag: u32,
)
    requires
        call_ensures(FilterFlags::from_bits_truncate, (number,), kept),
        call_ensures(FilterFlags::contains, (&x, y), contains),
        call_ensures(<FilterFlags as core::ops::BitOr>::bitor, (x, y), union),
        flag == 1 || flag == 2 || flag == 4 || flag == 8,
    ensures
        kept@ == number % 16,
        kept@ & flag == number & flag,
        contains <==> x@ | y@ == x@,
        union@ & flag == (x@ & flag) | (y@ & flag),
        union@ == x@ | y@,
{
    let (xv, yv) = (x@, y@);
    assert(number & 0xf == number % 16) by (bit_vector);
    assert((number & 0xf) & flag == number & flag) by (bit_vector)
        requires
            flag == 1 || flag == 2 || flag == 4 || flag == 8,
    ;
    assert(xv & yv == yv <==> xv | yv == xv) by (bit_vector);
    assert((xv | yv) & flag == (xv & flag) | (yv & flag)) by (bit_vector);
}

/// Each blob flag is one bit of its own, the default is to leave binary files alone, and
/// the bits are what libgit2 is told.
pub proof fn law_blob_filter_flags(
    a: BlobFilterFlags,
    b: BlobFilterFlags,
    c: BlobFilterFlags,
    d: BlobFilterFlags,
    usual: BlobFilterFlags,
    flags: BlobFilterFlags,
    bits: u32,
)
    requires
        call_ensures(BlobFilterFlags::check_for_binary, (), a),
        call_ensures(BlobFilterFlags::no_system_attributes, (), b),
        call_ensures(BlobFilterFlags::attributes_from_head, (), c),
        call_ensures(BlobFilterFlags::attributes_from_commit, (), d),
        call_ensures(<BlobFilterFlags as Default>::default, (), usual),
        call_ensures(BlobFilterFlags::bits, (&flags,), bits),
    ensures
        a@ == 1,
        b@ == 2,
        c@ == 4,
        d@ == 8,
        usual@ == 1,
        bits == flags@,
        bits < 16,
{
    assert(bits & 0xf == bits ==> bits < 16) by (bit_vector);
}

/// Of any number the four bits with a meaning are kept and no others, a set contains
/// another exactly if it has all of its bits, and a union has the bits of both.
pub proof fn law_blob_filter_flag_sets(
    number: u32,
    kept: BlobFilterFlags,
    x: BlobFilterFlags,
    y: BlobFilterFlags,
    contains: bool,
    union: BlobFilterFlags,
    flag: u32,
)
    requires
        call_ensures(BlobFilterFlags::from_bits_truncate, (number,), kept),
        call_ensures(BlobFilterFlags::contains, (&x, y), contains),
        call_ensures(<BlobFilterFlags as core::ops::BitOr>::bitor, (x, y), union),
        flag == 1 || flag == 2 || flag == 4 || flag == 8,
    ensures
        kept@ == number % 16,
        kept@ & flag == number & flag,
        contains <==> x@ | y@ == x@,
        union@ & flag == (x@ & flag) | (y@ & flag),
        union@ == x@ | y@,
{
    let (xv, yv) = (x@, y@);
    assert(number & 0xf == number % 16) by (bit_vector);
    assert((number & 0xf) & flag == number & flag) by (bit_vector)
        requires
            flag == 1 || flag == 2 || flag == 4 || flag == 8,
    ;
    assert(xv & yv == yv <==> xv | yv == xv) by (bit_vector);
    assert((xv | yv) & flag == (xv & flag) | (yv & flag)) by (bit_vector);
}

/// New filter options have the first version, no flags and no commit.
pub proof fn law_new_filter_options(
    opts: FilterOptions,
    raw: (u32, u32, Oid),
    usual: FilterOptions,
    usual_raw: (u32, u32, Oid),
    i: int,
)
    requires
        call_ensures(FilterOptions::new, (), opts),
        call_ensures(FilterOptions::raw, (&opts,), raw),
        call_ensures(<FilterOptions as Default>::default, (), usual),
        call_ensures(FilterOptions::raw, (&usual,), usual_raw),
        0 <= i < 20,
    ensures
        raw.0 == 1 && raw.1 == 0 && raw.2.id@[i] == 0,
        usual_raw.0 == 1 && usual_raw.1 == 0 && usual_raw.2.id@[i] == 0,
{
    assert(raw.2@[i] == 0 && usual_raw.2@[i] == 0);
}

/// Once filter options have been given a set of flags, libgit2 is told exactly the bits of
/// that set, and the version and the commit are as before. What the caller goes on with is
/// these options.
pub proof fn law_filter_flags_set(
    opts: &mut FilterOptions,
    flags: FilterFlags,
    this: &mut FilterOptions,
    bits: u32,
    before: (u32, u32, Oid),
    after: (u32, u32, Oid),
)
    requires
        call_ensures(FilterOptions::flags, (opts, flags), this),
        call_ensures(FilterFlags::bits, (&flags,), bits),
        call_ensures(FilterOptions::raw, (&*old(opts),), before),
        call_ensures(FilterOptions::raw, (&*old(this),), after),
    ensures
        after == (before.0, bits, before.2),
        after.1 == flags@,
        *final(opts) == *final(this),
{
}

/// Once filter options have been given a commit, libgit2 is told that commit, and the
/// version and the flags are as before.
pub proof fn law_filter_commit_set(
    opts: &mut FilterOptions,
    commit: Oid,
    this: &mut FilterOptions,
    before: (u32, u32, Oid),
    after: (u32, u32, Oid),
)
    requires
        call_ensures(FilterOptions::attr_commit, (opts, commit), this),
        call_ensures(FilterOptions::raw, (&*old(opts),), before),
        call_ensures(FilterOptions::raw, (&*old(this),), after),
    ensures
        after == (before.0, before.1, commit),
        *final(opts) == *final(this),
{
}

/// Once blob filter options have been given a set of flags, libgit2 is told exactly the
/// bits of that set, and the version and the commit are as before. What the caller goes on
/// with is these options.
pub proof fn law_blob_filter_flags_set(
    opts: &mut BlobFilterOptions,
    flags: BlobFilterFlags,
    this: &mut BlobFilterOptions,
    bits: u32,
    before: (i32, u32, Oid),
    after: (i32, u32, Oid),
)
    requires
        call_ensures(BlobFilterOptions::flags, (opts, flags), this),
        call_ensures(BlobFilterFlags::bits, (&flags,), bits),
        call_ensures(BlobFilterOptions::raw, (&*old(opts),), before),
        call_ensures(BlobFilterOptions::raw, (&*old(this),), after),
    ensures
        after == (before.0, bits, before.2),
        after.1 == flags@,
        *final(opts) == *final(this),
{
}

/// Once blob filter options have been given a commit, libgit2 is told that commit, and the
/// version and the flags are as before.
pub proof fn law_blob_filter_commit_set(
    opts: &mut BlobFilterOptions,
    commit: Oid,
    this: &mut BlobFilterOptions,
    before: (i32, u32, Oid),
    after: (i32, u32, Oid),
)
    requires
        call_ensures(BlobFilterOptions::attr_commit, (opts, commit), this),
        call_ensures(BlobFilterOptions::raw, (&*old(opts),), before),
        call_ensures(BlobFilterOptions::raw, (&*old(this),), after),
    ensures
        after == (before.0, before.1, commit),
        *final(opts) == *final(this),
{
}

/// Blob filter options are what libgit2 makes of options that are zero all over, asked for
/// the first version; what it made of them can be read back unchanged.
pub proof fn law_new_blob_filter_options<
    C: FnOnce((i32, u32, Oid), i32) -> (i32, u32, Oid),
>(init: C, opts: BlobFilterOptions, read: (i32, u32, Oid))
    requires
        call_ensures(BlobFilterOptions::new::<C>, (init,), opts),
        call_ensures(BlobFilterOptions::raw, (&opts,), read),
    ensures
        exists|zeroed: (i32, u32, Oid)|
            {
                &&& #[trigger] call_ensures(init, (zeroed, 1i32), read)
                &&& zeroed.0 == 0 && zeroed.1 == 0
                &&& forall|i: int| 0 <= i < 20 ==> #[trigger] zeroed.2.id@[i] == 0
            },
{
    let (zeroed, raw) = choose|zeroed: (i32, u32, Oid), raw: (i32, u32, Oid)|
        {
            &&& #[trigger] call_ensures(init, (zeroed, 1i32), raw)
            &&& zeroed.0 == 0 && zeroed.1 == 0 && zeroed.2@ == Oid::zero_bytes()
            &&& opts@ == crate::blob::BlobFilterOptionsView::of(raw)
        };
    assert(read == raw);
    assert forall|i: int| 0 <= i < 20 implies #[trigger] zeroed.2.id@[i] == 0 by {
        assert(zeroed.2@[i] == 0);
    }
}

/// New blob filter options can be made with a function that takes nothing but zeroed
/// options and the first version.
pub proof fn law_new_blob_filter_options_asks<
    C: FnOnce((i32, u32, Oid), i32) -> (i32, u32, Oid),
>(init: C)
    requires
        forall|zeroed: (i32, u32, Oid)|
            zeroed.0 == 0 && zeroed.1 == 0 && (forall|i: int|
                0 <= i < 20 ==> #[trigger] zeroed.2.id@[i] == 0) ==> #[trigger] call_requires(
                init,
                (zeroed, 1i32),
            ),
    ensures
        call_requires(BlobFilterOptions::new::<C>, (init,)),
{
    assert forall|zeroed: (i32, u32, Oid)|
        crate::blob::BlobFilterOptionsView::of(zeroed).is_zeroed() implies #[trigger] call_requires(
        init,
        (zeroed, 1i32),
    ) by {
        assert forall|i: int| 0 <= i < 20 implies #[trigger] zeroed.2.id@[i] == 0 by {
            assert(zeroed.2@[i] == 0);
        }
    }
}

/// Options that come from libgit2 are read back as they came.
pub proof fn law_blob_filter_options_kept(
    raw: (i32, u32, Oid),
    opts: BlobFilterOptions,
    read: (i32, u32, Oid),
)
    requires
        call_ensures(BlobFilterOptions::from_raw, (raw,), opts),
        call_ensures(BlobFilterOptions::raw, (&opts,), read),
    ensures
        read == raw,
{
}

/// A filter is told of the file what libgit2 says: path, file mode and id unchanged, the
/// number one as a clean and any other as a smudge, and of the flags those with a meaning.
pub proof fn law_source_tells(
    path: Option<Vec<u8>>,
    filemode: u16,
    id: Option<Oid>,
    mode: u32,
    flags: u32,
    source: FilterSource,
    told_path: Option<&[u8]>,
    told_filemode: u16,
    told_id: Option<Oid>,
    told_mode: FilterMode,
    told_flags: FilterFlags,
)
    requires
        call_ensures(FilterSource::from_raw, (path, filemode, id, mode, flags), source),
        call_ensures(FilterSource::path, (&source,), told_path),
        call_ensures(FilterSource::filemode, (&source,), told_filemode),
        call_ensures(FilterSource::id, (&source,), told_id),
        call_ensures(FilterSource::mode, (&source,), told_mode),
        call_ensures(FilterSource::flags, (&source,), told_flags),
    ensures
        path is Some <==> told_path is Some,
        path is Some ==> told_path->0@ == path->0@,
        told_filemode == filemode,
        told_id == id,
        told_mode is ToOdb <==> mode == 1,
        told_flags@ == flags % 16,
{
    assert(flags & 0xf == flags % 16) by (bit_vector);
}

} // verus!
