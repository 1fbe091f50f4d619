//! Merge drivers and their callbacks.
use vstd::prelude::*;

use crate::call::Reply;
use crate::cstring::CString;
use crate::error::Error;
use crate::index::IndexEntry;
use crate::merge_driver::{
    lookup_merge_driver, merge_driver_apply_cb, merge_driver_init_cb, merge_driver_shutdown_cb,
    register_merge_driver, unregister_merge_driver, ApplyDecision, ApplyReply, MergeDriver,
    MergeDriverApplyResult, MergeDriverRegistration, MergeDriverSource, RawMergeDriver,
};

verus! {

/// A driver is told of each side what libgit2 says of it: the entry in every field, or
/// that there is none.
pub proof fn law_sides_told(
    ancestor: Option<IndexEntry>,
    ours: Option<IndexEntry>,
    theirs: Option<IndexEntry>,
    source: MergeDriverSource,
    told: Option<IndexEntry>,
    told_ours: Option<IndexEntry>,
    told_theirs: Option<IndexEntry>,
)
    requires
        call_ensures(MergeDriverSource::from_raw, (ancestor, ours, theirs), source),
        call_ensures(MergeDriverSource::ancestor, (&source,), told),
        call_ensures(MergeDriverSource::ours, (&source,), told_ours),
        call_ensures(MergeDriverSource::theirs, (&source,), told_theirs),
    ensures
        told is Some <==> ancestor is Some,
        ancestor matches Some(e) ==> {
            &&& told->0.ctime == e.ctime
            &&& told->0.mtime == e.mtime
            &&& told->0.dev == e.dev
            &&& told->0.ino == e.ino
            &&& told->0.mode == e.mode
            &&& told->0.uid == e.uid
            &&& told->0.gid == e.gid
            &&& told->0.file_size == e.file_size
            &&& told->0.id == e.id
            &&& told->0.flags == e.flags
            &&& told->0.flags_extended == e.flags_extended
            &&& told->0.path@ == e.path@
        },
        told_ours is Some <==> ours is Some,
        ours matches Some(e) ==> {
            &&& told_ours->0.ctime == e.ctime
            &&& told_ours->0.mtime == e.mtime
            &&& told_ours->0.dev == e.dev
            &&& told_ours->0.ino == e.ino
            &&& told_ours->0.mode == e.mode
            &&& told_ours->0.uid == e.uid
            &&& told_ours->0.gid == e.gid
            &&& told_ours->0.file_size == e.file_size
            &&& told_ours->0.id == e.id
            &&& told_ours->0.flags == e.flags
            &&& told_ours->0.flags_extended == e.flags_extended
            &&& told_ours->0.path@ == e.path@
        },
        told_theirs is Some <==> theirs is Some,
        theirs matches Some(e) ==> {
            &&& told_theirs->0.ctime == e.ctime
            &&& told_theirs->0.mtime == e.mtime
            &&& told_theirs->0.dev == e.dev
            &&& told_theirs->0.ino == e.ino
            &&& told_theirs->0.mode == e.mode
            &&& told_theirs->0.uid == e.uid
            &&& told_theirs->0.gid == e.gid
            &&& told_theirs->0.file_size == e.file_size
            &&& told_theirs->0.id == e.id
            &&& told_theirs->0.flags == e.flags
            &&& told_theirs->0.flags_extended == e.flags_extended
            &&& told_theirs->0.path@ == e.path@
        },
{
}

/// How to go on after the driver's answer: merge what it merged, ask for the default driver,
/// report a conflict, or fail.
pub proof fn law_apply_decision(
    outcome: Option<Result<MergeDriverApplyResult, Error>>,
    decision: ApplyDecision,
)
    requires
        call_ensures(ApplyDecision::new, (outcome,), decision),
    ensures
        outcome matches Some(Ok(MergeDriverApplyResult::Applied { content, path, mode }))
            ==> decision == (ApplyDecision::Merge { content, path, mode }),
        outcome matches Some(Ok(MergeDriverApplyResult::Passthrough)) ==> decision
            == ApplyDecision::Return(-30i32),
        outcome matches Some(Ok(MergeDriverApplyResult::Conflict)) ==> decision
            == ApplyDecision::Return(-24i32),
        (outcome is None || outcome matches Some(Err(_))) ==> decision == ApplyDecision::Return(
            -1i32,
        ),
{
}

/// A new driver has the first version, has not been used and keeps no path.
pub proof fn law_new_driver(driver: RawMergeDriver)
    requires
        call_ensures(RawMergeDriver::new, (), driver),
    ensures
        driver.version == 1,
        !driver.initialized,
        driver.last_path is None,
{
}

/// Once libgit2 has the merged content, it is given the driver's path exactly if there is
/// one, whatever the mode, and the driver's mode, whatever the path. A path that it is given
/// is kept. If libgit2 refused the content, or C cannot take the path, nothing is given and
/// nothing is kept.
pub proof fn law_merged(
    driver: &mut RawMergeDriver,
    rc: i32,
    path: Option<String>,
    mode: Option<u32>,
    reply: ApplyReply,
)
    requires
        call_ensures(RawMergeDriver::merged, (driver, rc, path, mode), reply),
    ensures
        final(driver).version == old(driver).version,
        final(driver).initialized == old(driver).initialized,
        if rc < 0 || (path matches Some(p) && p@.contains('\0')) {
            &&& reply.code == -1
            &&& !reply.path_set
            &&& reply.mode is None
            &&& final(driver).last_path == old(driver).last_path
        } else {
            &&& reply.code == 0
            &&& reply.path_set <==> path is Some
            &&& reply.mode == mode
            &&& path matches Some(p) ==> (final(driver).last_path matches Some(kept) && kept@
                == vstd::utf8::encode_utf8(p@))
            &&& path is None ==> final(driver).last_path == old(driver).last_path
        },
{
    assert forall|text: Seq<char>|
        CString::fits(#[trigger] CString::encoded(text)) <==> !text.contains('\0') by {
        crate::cstring::law_text_fits(text);
    }
}

/// The apply callback runs the driver under the name that libgit2 gave, as text, and on
/// these sides. What the driver merged goes to libgit2 whole; the path out-parameter is set
/// exactly if the driver gave a path, whatever the mode, and the mode out-parameter to the
/// driver's mode, whatever the path. Any other answer sets nothing and has a code of its
/// own. A name that is not text fails.
pub proof fn law_apply<
    A: FnOnce(&str, &MergeDriverSource) -> Option<Result<MergeDriverApplyResult, Error>>,
    S: FnOnce(&[u8]) -> i32,
>(
    driver: &mut RawMergeDriver,
    filter_name: &[u8],
    source: &MergeDriverSource,
    apply: A,
    set_merged: S,
    reply: ApplyReply,
)
    requires
        call_ensures(
            merge_driver_apply_cb::<A, S>,
            (driver, filter_name, source, apply, set_merged),
            reply,
        ),
    ensures
        final(driver).version == old(driver).version,
        final(driver).initialized == old(driver).initialized,
        reply.code != 0 ==> !reply.path_set && reply.mode is None && *final(driver) == *old(
            driver,
        ),
        !vstd::utf8::valid_utf8(filter_name@) ==> reply.code == -1,
        vstd::utf8::valid_utf8(filter_name@) ==> exists|
            name: &str,
            outcome: Option<Result<MergeDriverApplyResult, Error>>,
        |
            {
                &&& #[trigger] call_ensures(apply, (name, source), outcome)
                &&& vstd::utf8::encode_utf8(name@) == filter_name@
                &&& (outcome is None || outcome matches Some(Err(_))) ==> reply.code == -1
                &&& outcome matches Some(Ok(MergeDriverApplyResult::Passthrough))
                    ==> reply.code == -30
                &&& outcome matches Some(Ok(MergeDriverApplyResult::Conflict))
                    ==> reply.code == -24
                &&& outcome matches Some(
                    Ok(MergeDriverApplyResult::Applied { content, path, mode }),
                ) ==> exists|bytes: &[u8], rc: i32|
                    {
                        &&& #[trigger] call_ensures(set_merged, (bytes,), rc)
                        &&& bytes@ == content@
                        &&& if rc < 0 || (path matches Some(p) && p@.contains('\0')) {
                            &&& reply.code == -1
                            &&& !reply.path_set
                            &&& reply.mode is None
                            &&& final(driver).last_path == old(driver).last_path
                        } else {
                            &&& reply.code == 0
                            &&& reply.path_set <==> path is Some
                            &&& reply.mode == mode
                            &&& path matches Some(p) ==> (final(driver).last_path matches Some(kept) && kept@
                                == vstd::utf8::encode_utf8(p@))
                            &&& path is None ==> final(driver).last_path == old(driver).last_path
                        }
                    }
            },
{
    assert forall|text: Seq<char>|
        CString::fits(#[trigger] CString::encoded(text)) <==> !text.contains('\0') by {
        crate::cstring::law_text_fits(text);
    }
    if vstd::utf8::valid_utf8(filter_name@) {
        vstd::utf8::decode_utf8_encode_utf8(filter_name@);
    }
}

/// The apply callback can be given a driver that takes only this name and these sides, and
/// a function that takes only what the driver merged, if it did.
pub proof fn law_apply_asks<
    A: FnOnce(&str, &MergeDriverSource) -> Option<Result<MergeDriverApplyResult, Error>>,
    S: FnOnce(&[u8]) -> i32,
>(
    driver: &mut RawMergeDriver,
    filter_name: &[u8],
    source: &MergeDriverSource,
    apply: A,
    set_merged: S,
)
    requires
        forall|name: &str|
            vstd::utf8::encode_utf8(name@) == filter_name@ ==> #[trigger] call_requires(
                apply,
                (name, source),
            ),
        forall|name: &str, outcome: Option<Result<MergeDriverApplyResult, Error>>, bytes: &[u8]|
            #![trigger call_ensures(apply, (name, source), outcome), call_requires(set_merged, (bytes,))]
            call_ensures(apply, (name, source), outcome) && (outcome matches Some(
                Ok(MergeDriverApplyResult::Applied { content, path, mode }),
            ) && bytes@ == content@) ==> call_requires(set_merged, (bytes,)),
    ensures
        call_requires(
            merge_driver_apply_cb::<A, S>,
            (driver, filter_name, source, apply, set_merged),
        ),
{
    if vstd::utf8::valid_utf8(filter_name@) {
        vstd::utf8::decode_utf8_encode_utf8(filter_name@);
    }
}

/// Notes on a run of `initialize`: it counts exactly if it succeeded, and it never undoes an
/// earlier success. The code is zero exactly for a success.
pub proof fn law_driver_init_noted(
    driver: &mut RawMergeDriver,
    outcome: Option<Result<(), Error>>,
    rc: i32,
)
    requires
        call_ensures(RawMergeDriver::init_done, (driver, outcome), rc),
    ensures
        rc == (if outcome matches Some(Ok(_)) { 0int } else { -1int }),
        final(driver).initialized <==> old(driver).initialized || (outcome matches Some(Ok(_))),
        final(driver).version == old(driver).version,
        final(driver).last_path == old(driver).last_path,
{
}

/// The init callback leaves a driver alone that has been initialized, and otherwise runs
/// `initialize`: the driver counts as initialized and the code is zero exactly if that
/// succeeds.
pub proof fn law_driver_init<I: FnOnce() -> Option<Result<(), Error>>>(
    driver: &mut RawMergeDriver,
    initialize: I,
    rc: i32,
)
    requires
        call_ensures(merge_driver_init_cb::<I>, (driver, initialize), rc),
    ensures
        final(driver).version == old(driver).version,
        final(driver).last_path == old(driver).last_path,
        old(driver).initialized ==> rc == 0 && final(driver).initialized,
        !old(driver).initialized ==> exists|outcome: Option<Result<(), Error>>|
            {
                &&& #[trigger] call_ensures(initialize, (), outcome)
                &&& final(driver).initialized <==> (outcome matches Some(Ok(_)))
                &&& rc == 0 <==> (outcome matches Some(Ok(_)))
                &&& rc == 0 || rc == -1
            },
{
}

/// The init callback can be given an `initialize` that must not be run again.
pub proof fn law_driver_init_asks<I: FnOnce() -> Option<Result<(), Error>>>(
    driver: &mut RawMergeDriver,
    initialize: I,
)
    requires
        !old(driver).initialized ==> call_requires(initialize, ()),
    ensures
        call_requires(merge_driver_init_cb::<I>, (driver, initialize)),
{
}

/// The shutdown callback runs `shutdown`, whatever comes of it, and needs nothing else.
pub proof fn law_driver_ends<S: FnOnce() -> Option<()>>(driver: RawMergeDriver, shutdown: S)
    requires
        call_requires(shutdown, ()),
    ensures
        call_requires(merge_driver_shutdown_cb::<S>, (driver, shutdown)),
        call_ensures(merge_driver_shutdown_cb::<S>, (driver, shutdown), ()) ==> exists|
            outcome: Option<()>,
        | call_ensures(shutdown, (), outcome),
{
}

/// libgit2 is asked to register exactly this driver, under this name, as one that has not
/// been used. What libgit2 answers is what the registration comes to. A name that C cannot
/// take is refused.
pub proof fn law_register_merge_driver<
    D: MergeDriver,
    R,
    C: FnOnce(MergeDriverRegistration, D) -> Reply<R>,
>(name: &str, driver: D, register: C, r: Result<R, Error>)
    requires
        call_ensures(register_merge_driver::<D, R, C>, (name, driver, register), r),
    ensures
        name@.contains('\0') ==> (r matches Err(e) && e.code == -1 && e.klass == 0 && e.message@
            == "data contained a nul byte that could not be represented as a string"@),
        !name@.contains('\0') ==> exists|request: MergeDriverRegistration, reply: Reply<R>|
            {
                &&& #[trigger] call_ensures(register, (request, driver), reply)
                &&& request.name@ == vstd::utf8::encode_utf8(name@)
                &&& request.driver.version == 1
                &&& !request.driver.initialized
                &&& request.driver.last_path is None
                &&& match r {
                    Ok(out) => reply.rc >= 0 && out == reply.out,
                    Err(e) => reply.rc < 0 && e.code == reply.rc && match reply.last_error {
                        Some(last) => e.klass == last.klass && e.message@ == last.message@,
                        None => e.klass == 0 && e.message@ == "an unknown git error occurred"@,
                    },
                }
            },
{
    assert forall|text: Seq<char>|
        CString::fits(#[trigger] CString::encoded(text)) <==> !text.contains('\0') by {
        crate::cstring::law_text_fits(text);
    }
}

/// A driver can be registered through a function that makes that one call and no other.
pub proof fn law_register_merge_driver_asks<
    D: MergeDriver,
    R,
    C: FnOnce(MergeDriverRegistration, D) -> Reply<R>,
>(name: &str, driver: D, register: C)
    requires
        forall|request: MergeDriverRegistration|
            ({
                &&& !name@.contains('\0')
                &&& request.name@ == vstd::utf8::encode_utf8(name@)
                &&& request.driver.version == 1
                &&& !request.driver.initialized
                &&& request.driver.last_path is None
            }) ==> #[trigger] call_requires(register, (request, driver)),
    ensures
        call_requires(register_merge_driver::<D, R, C>, (name, driver, register)),
{
    assert forall|text: Seq<char>|
        CString::fits(#[trigger] CString::encoded(text)) <==> !text.contains('\0') by {
        crate::cstring::law_text_fits(text);
    }
}

/// libgit2 is asked to forget exactly this name, and its answer is what comes out.
pub proof fn law_unregister_merge_driver<C: FnOnce(CString) -> Reply<()>>(
    name: &str,
    unregister: C,
    r: Result<(), Error>,
)
    requires
        call_ensures(unregister_merge_driver::<C>, (name, unregister), r),
    ensures
        name@.contains('\0') ==> (r matches Err(e) && e.code == -1 && e.klass == 0 && e.message@
            == "data contained a nul byte that could not be represented as a string"@),
        !name@.contains('\0') ==> exists|asked: CString, reply: Reply<()>|
            {
                &&& #[trigger] call_ensures(unregister, (asked,), reply)
                &&& asked@ == vstd::utf8::encode_utf8(name@)
                &&& match r {
                    Ok(out) => reply.rc >= 0 && out == reply.out,
                    Err(e) => reply.rc < 0 && e.code == reply.rc && match reply.last_error {
                        Some(last) => e.klass == last.klass && e.message@ == last.message@,
                        None => e.klass == 0 && e.message@ == "an unknown git error occurred"@,
                    },
                }
            },
{
    assert forall|text: Seq<char>|
        CString::fits(#[trigger] CString::encoded(text)) <==> !text.contains('\0') by {
        crate::cstring::law_text_fits(text);
    }
}

/// A driver is found exactly if libgit2 has an address for its name; a name that C cannot
/// take is not found.
pub proof fn law_lookup_merge_driver<C: FnOnce(CString) -> usize>(
    name: &str,
    lookup: C,
    found: bool,
)
    requires
        call_ensures(lookup_merge_driver::<C>, (name, lookup), found),
    ensures
        name@.contains('\0') ==> !found,
        !name@.contains('\0') ==> exists|asked: CString, address: usize|
            {
                &&& #[trigger] call_ensures(lookup, (asked,), address)
                &&& asked@ == vstd::utf8::encode_utf8(name@)
                &&& found <==> address != 0
            },
{
    assert forall|text: Seq<char>|
        CString::fits(#[trigger] CString::encoded(text)) <==> !text.contains('\0') by {
        crate::cstring::law_text_fits(text);
    }
}

/// A name can be forgotten and looked up through functions that take only that name.
pub proof fn law_driver_name_asks<C: FnOnce(CString) -> Reply<()>, D: FnOnce(CString) -> usize>(
    name: &str,
    unregister: C,
    lookup: D,
)
    requires
        forall|asked: CString|
            !name@.contains('\0') && asked@ == vstd::utf8::encode_utf8(name@)
                ==> #[trigger] call_requires(unregister, (asked,)),
        forall|asked: CString|
            !name@.contains('\0') && asked@ == vstd::utf8::encode_utf8(name@)
                ==> #[trigger] call_requires(lookup, (asked,)),
    ensures
        call_requires(unregister_merge_driver::<C>, (name, unregister)),
        call_requires(lookup_merge_driver::<D>, (name, lookup)),
{
    assert forall|text: Seq<char>|
        CString::fits(#[trigger] CString::encoded(text)) <==> !text.contains('\0') by {
        crate::cstring::law_text_fits(text);
    }
}

} // verus!
