//! Custom merge drivers.
//!
//! libgit2 calls a registered driver through C callbacks. The functions here decide
//! what such a callback does; the work that only the outside can do (to run the
//! driver with its panics caught, to call libgit2) is handed in as a function.
//! A driver's answer is `None` where running it ended in a panic.
use vstd::prelude::*;

use crate::call::Reply;
use crate::cstring::CString;
use crate::error::{Error, ErrorView};
use crate::index::IndexEntry;
use crate::init::InitStep;
use crate::raw::{GIT_EMERGECONFLICT, GIT_ERROR, GIT_MERGE_DRIVER_VERSION, GIT_PASSTHROUGH};

verus! {

/// Result of a merge driver's `apply` operation.
#[derive(Debug)]
pub enum MergeDriverApplyResult {
    /// Merge succeeded: provide merged content and optionally override path/mode.
    Applied {
        /// The merged file content.
        content: Vec<u8>,
        /// Optionally override the path of the merged result.
        path: Option<String>,
        /// Optionally override the file mode of the merged result.
        mode: Option<u32>,
    },
    /// Fall back to the default ("text") merge driver.
    Passthrough,
    /// File remains conflicted.
    Conflict,
}

/// Information about the merge being performed: the index entries of the three
/// sides, where they exist.
#[derive(Debug)]
pub struct MergeDriverSource {
    ancestor: Option<IndexEntry>,
    ours: Option<IndexEntry>,
    theirs: Option<IndexEntry>,
}

/// What a [`MergeDriverSource`] holds.
pub struct MergeDriverSourceView {
    pub ancestor: Option<IndexEntry>,
    pub ours: Option<IndexEntry>,
    pub theirs: Option<IndexEntry>,
}

impl View for MergeDriverSource {
    type V = MergeDriverSourceView;

    closed spec fn view(&self) -> MergeDriverSourceView {
        MergeDriverSourceView { ancestor: self.ancestor, ours: self.ours, theirs: self.theirs }
    }
}

/// A copy of the entry, if there is one.
fn copy_entry(entry: &Option<IndexEntry>) -> (copy: Option<IndexEntry>)
    ensures
        match *entry {
            Some(e) => copy matches Some(c) && c.same(e),
            None => copy is None,
        },
{
    match entry {
        Some(e) => Some(e.clone()),
        None => None,
    }
}

impl MergeDriverSource {
    /// The source that consists of these entries.
    pub fn from_raw(
        ancestor: Option<IndexEntry>,
        ours: Option<IndexEntry>,
        theirs: Option<IndexEntry>,
    ) -> (source: MergeDriverSource)
        ensures
            source@ == (MergeDriverSourceView { ancestor, ours, theirs }),
    {
        MergeDriverSource { ancestor, ours, theirs }
    }

    /// Get the ancestor (common base) index entry.
    pub fn ancestor(&self) -> (entry: Option<IndexEntry>)
        ensures
            match self@.ancestor {
                Some(e) => entry matches Some(c) && c.same(e),
                None => entry is None,
            },
    {
        copy_entry(&self.ancestor)
    }

    /// Get the "ours" (current branch) index entry.
    pub fn ours(&self) -> (entry: Option<IndexEntry>)
        ensures
            match self@.ours {
                Some(e) => entry matches Some(c) && c.same(e),
                None => entry is None,
            },
    {
        copy_entry(&self.ours)
    }

    /// Get the "theirs" (branch being merged in) index entry.
    pub fn theirs(&self) -> (entry: Option<IndexEntry>)
        ensures
            match self@.theirs {
                Some(e) => entry matches Some(c) && c.same(e),
                None => entry is None,
            },
    {
        copy_entry(&self.theirs)
    }
}

/// Trait for implementing custom merge drivers.
///
/// The merge driver registry in libgit2 is not thread-safe. Drivers must be
/// registered during application startup, before any concurrent git operations.
pub trait MergeDriver: Send + Sync + Sized + 'static {
    /// Called once when the driver is first used.
    ///
    /// Override this to perform one-time initialization.
    fn initialize(&mut self) -> (r: Result<(), Error>)
        default_ensures
            r is Ok,
            *final(self) == *old(self),
    {
        Ok(())
    }

    /// Called when the driver is unregistered.
    ///
    /// Override this to perform cleanup.
    fn shutdown(&mut self)
        default_ensures
            *final(self) == *old(self),
    {
    }

    /// Apply the merge driver to resolve a conflict.
    ///
    /// `filter_name` is the name of the merge driver as configured in
    /// `.gitattributes`. `src` provides access to the ancestor, ours, and
    /// theirs index entries.
    fn apply(&mut self, filter_name: &str, src: &MergeDriverSource) -> Result<
        MergeDriverApplyResult,
        Error,
    >;
}

/// What is kept of a registered driver beside the driver itself.
pub struct RawMergeDriver {
    /// The version of the interface that libgit2 is told.
    pub version: u32,
    /// Whether the driver's `initialize` has succeeded.
    pub initialized: bool,
    /// Keeps the path handed to libgit2 alive after the apply callback returns.
    pub last_path: Option<CString>,
}

/// What the apply callback tells libgit2.
#[derive(Clone, Copy, Debug, PartialEq, Eq)]
pub struct ApplyReply {
    /// The return code.
    pub code: i32,
    /// Whether the path out-parameter is to point at the driver's `last_path`.
    pub path_set: bool,
    /// What the mode out-parameter is to be set to, if to anything.
    pub mode: Option<u32>,
}

/// How to go on after the driver's answer.
pub enum ApplyDecision {
    /// Hand `content` to libgit2 as the merged file, then see to path and mode.
    Merge { content: Vec<u8>, path: Option<String>, mode: Option<u32> },
    /// Return the code and set nothing.
    Return(i32),
}

impl ApplyReply {
    /// The reply that sets nothing.
    pub open spec fn bare(code: i32) -> ApplyReply {
        ApplyReply { code, path_set: false, mode: None }
    }

    /// The reply once libgit2 has answered `rc` to the merged content.
    pub open spec fn merged(rc: i32, path: Option<String>, mode: Option<u32>) -> ApplyReply {
        if rc < 0 || (path matches Some(p) && !CString::fits(CString::encoded(p@))) {
            ApplyReply::bare(GIT_ERROR)
        } else {
            ApplyReply { code: 0, path_set: path is Some, mode }
        }
    }

    /// The reply to a driver's answer; `rc` is what libgit2 says of the content,
    /// where the answer has any.
    pub open spec fn to_outcome(
        outcome: Option<Result<MergeDriverApplyResult, Error>>,
        rc: i32,
    ) -> ApplyReply {
        match ApplyDecision::after(outcome) {
            ApplyDecision::Merge { content, path, mode } => ApplyReply::merged(rc, path, mode),
            ApplyDecision::Return(code) => ApplyReply::bare(code),
        }
    }
}

impl ApplyDecision {
    /// The way on after `outcome`.
    pub open spec fn after(
        outcome: Option<Result<MergeDriverApplyResult, Error>>,
    ) -> ApplyDecision {
        match outcome {
            Some(Ok(MergeDriverApplyResult::Applied { content, path, mode })) => {
                ApplyDecision::Merge { content, path, mode }
            },
            Some(Ok(MergeDriverApplyResult::Passthrough)) => ApplyDecision::Return(
                GIT_PASSTHROUGH,
            ),
            Some(Ok(MergeDriverApplyResult::Conflict)) => ApplyDecision::Return(
                GIT_EMERGECONFLICT,
            ),
            Some(Err(_)) => ApplyDecision::Return(GIT_ERROR),
            None => ApplyDecision::Return(GIT_ERROR),
        }
    }

    /// Decides how to go on after the driver's answer.
    pub fn new(outcome: Option<Result<MergeDriverApplyResult, Error>>) -> (d: ApplyDecision)
        ensures
            d == ApplyDecision::after(outcome),
    {
        match outcome {
            Some(Ok(MergeDriverApplyResult::Applied { content, path, mode })) => {
                ApplyDecision::Merge { content, path, mode }
            },
            Some(Ok(MergeDriverApplyResult::Passthrough)) => ApplyDecision::Return(
                GIT_PASSTHROUGH,
            ),
            Some(Ok(MergeDriverApplyResult::Conflict)) => ApplyDecision::Return(
                GIT_EMERGECONFLICT,
            ),
            Some(Err(_)) => ApplyDecision::Return(GIT_ERROR),
            None => ApplyDecision::Return(GIT_ERROR),
        }
    }
}

impl RawMergeDriver {
    /// The driver before its first use.
    pub fn new() -> (driver: RawMergeDriver)
        ensures
            driver == (RawMergeDriver {
                version: GIT_MERGE_DRIVER_VERSION,
                initialized: false,
                last_path: None,
            }),
    {
        RawMergeDriver { version: GIT_MERGE_DRIVER_VERSION, initialized: false, last_path: None }
    }

    /// Takes note of how the driver's `initialize` went, and gives the callback's
    /// return code.
    pub fn init_done(&mut self, outcome: Option<Result<(), Error>>) -> (rc: i32)
        ensures
            rc == InitStep::code(outcome),
            *final(self) == (RawMergeDriver {
                initialized: old(self).initialized || InitStep::succeeded(outcome),
                ..*old(self)
            }),
    {
        InitStep::take(&mut self.initialized, outcome)
    }

    /// The driver's state once libgit2 has answered `rc` to the merged content: a path
    /// that libgit2 is given is kept, and nothing else changes.
    pub open spec fn keeps_path(
        self,
        before: RawMergeDriver,
        rc: i32,
        path: Option<String>,
        mode: Option<u32>,
    ) -> bool {
        if ApplyReply::merged(rc, path, mode).path_set {
            &&& self.last_path matches Some(kept) && kept@ == CString::encoded(path->0@)
            &&& self == (RawMergeDriver { last_path: self.last_path, ..before })
        } else {
            self == before
        }
    }

    /// Finishes the apply callback once libgit2 has answered `rc` to the merged
    /// content.
    pub fn merged(&mut self, rc: i32, path: Option<String>, mode: Option<u32>) -> (reply:
        ApplyReply)
        ensures
            reply == ApplyReply::merged(rc, path, mode),
            final(self).keeps_path(*old(self), rc, path, mode),
    {
        if rc < 0 {
            return ApplyReply { code: GIT_ERROR, path_set: false, mode: None };
        }
        let path_set = path.is_some();
        if let Some(p) = path {
            match CString::new(p.as_str().as_bytes()) {
                Ok(c) => {
                    self.last_path = Some(c);
                },
                Err(_) => {
                    return ApplyReply { code: GIT_ERROR, path_set: false, mode: None };
                },
            }
        }
        ApplyReply { code: 0, path_set, mode }
    }
}

/// The text that the bytes encode, or `None` if they are not UTF-8.
///
/// Calls `std::str::from_utf8`. Trusted: it succeeds on exactly the valid UTF-8
/// sequences, and then gives the characters that the bytes encode.
#[verifier::external_body]
fn utf8_text(bytes: &[u8]) -> (r: Option<&str>)
    ensures
        match r {
            Some(s) => vstd::utf8::valid_utf8(bytes@) && s@ == vstd::utf8::decode_utf8(bytes@),
            None => !vstd::utf8::valid_utf8(bytes@),
        },
{
    match std::str::from_utf8(bytes) {
        Ok(s) => Some(s),
        Err(_) => None,
    }
}

/// The init callback: runs the driver's `initialize`, unless it has succeeded before.
pub fn merge_driver_init_cb<I: FnOnce() -> Option<Result<(), Error>>>(
    driver: &mut RawMergeDriver,
    initialize: I,
) -> (rc: i32)
    requires
        !old(driver).initialized ==> call_requires(initialize, ()),
    ensures
        if old(driver).initialized {
            InitStep::leads(true, None, final(driver).initialized, rc) && *final(driver) == *old(driver)
        } else {
            exists|outcome: Option<Result<(), Error>>|
                {
                    &&& #[trigger] call_ensures(initialize, (), outcome)
                    &&& InitStep::leads(false, outcome, final(driver).initialized, rc)
                    &&& *final(driver) == (RawMergeDriver {
                        initialized: InitStep::succeeded(outcome),
                        ..*old(driver)
                    })
                }
        },
{
    if driver.initialized {
        return 0;
    }
    let outcome = initialize();
    driver.init_done(outcome)
}

/// The apply callback: asks the driver to merge, hands libgit2 what it merged, and
/// says what to return and which out-parameters to set.
///
/// `apply` runs the driver's `apply`; `set_merged` sets the merged content
/// (`git_buf_set`) and gives libgit2's return code.
pub fn merge_driver_apply_cb<
    A: FnOnce(&str, &MergeDriverSource) -> Option<Result<MergeDriverApplyResult, Error>>,
    S: FnOnce(&[u8]) -> i32,
>(
    driver: &mut RawMergeDriver,
    filter_name: &[u8],
    source: &MergeDriverSource,
    apply: A,
    set_merged: S,
) -> (reply: ApplyReply)
    requires
        forall|name: &str|
            vstd::utf8::valid_utf8(filter_name@) && name@ == vstd::utf8::decode_utf8(filter_name@)
                ==> #[trigger] call_requires(apply, (name, source)),
        forall|name: &str, outcome: Option<Result<MergeDriverApplyResult, Error>>, bytes: &[u8]|
            #![trigger call_ensures(apply, (name, source), outcome), call_requires(set_merged, (bytes,))]
            call_ensures(apply, (name, source), outcome) && (ApplyDecision::after(
                outcome,
            ) matches ApplyDecision::Merge { content, path, mode } && bytes@ == content@)
                ==> call_requires(set_merged, (bytes,)),
    ensures
        if vstd::utf8::valid_utf8(filter_name@) {
            exists|name: &str, outcome: Option<Result<MergeDriverApplyResult, Error>>|
                {
                    &&& name@ == vstd::utf8::decode_utf8(filter_name@)
                    &&& #[trigger] call_ensures(apply, (name, source), outcome)
                    &&& match ApplyDecision::after(outcome) {
                        ApplyDecision::Merge { content, path, mode } => exists|
                            bytes: &[u8],
                            rc: i32,
                        |
                            {
                                &&& bytes@ == content@
                                &&& #[trigger] call_ensures(set_merged, (bytes,), rc)
                                &&& reply == ApplyReply::merged(rc, path, mode)
                                &&& final(driver).keeps_path(*old(driver), rc, path, mode)
                            },
                        ApplyDecision::Return(code) => {
                            &&& reply == ApplyReply::bare(code)
                            &&& *final(driver) == *old(driver)
                        },
                    }
                }
        } else {
            reply == ApplyReply::bare(GIT_ERROR) && *final(driver) == *old(driver)
        },
{
    let name = match utf8_text(filter_name) {
        Some(name) => name,
        None => return ApplyReply { code: GIT_ERROR, path_set: false, mode: None },
    };
    let outcome = apply(name, source);
    match ApplyDecision::new(outcome) {
        ApplyDecision::Merge { content, path, mode } => {
            let rc: i32 = set_merged(content.as_slice());
            driver.merged(rc, path, mode)
        },
        ApplyDecision::Return(code) => ApplyReply { code, path_set: false, mode: None },
    }
}

/// A request to register a merge driver: the name, and the state to keep for libgit2.
pub struct MergeDriverRegistration {
    pub name: CString,
    pub driver: RawMergeDriver,
}

impl MergeDriverRegistration {
    /// Whether the request is to register under this name a driver that has not been
    /// used yet.
    pub open spec fn asks(self, name: Seq<char>) -> bool {
        &&& self.name.is_text(name)
        &&& self.driver == (RawMergeDriver {
            version: GIT_MERGE_DRIVER_VERSION,
            initialized: false,
            last_path: None,
        })
    }
}

/// Register a custom merge driver under `name` (referenced in `.gitattributes` via
/// `merge=<name>`).
///
/// `register` makes the registration last from libgit2's side
/// (`git_merge_driver_register`). What it gives back with a success is handed on, for
/// libgit2 now depends on it; with a failure it is dropped.
pub fn register_merge_driver<
    D: MergeDriver,
    R,
    C: FnOnce(MergeDriverRegistration, D) -> Reply<R>,
>(name: &str, driver: D, register: C) -> (r: Result<R, Error>)
    requires
        forall|request: MergeDriverRegistration|
            request.asks(name@) ==> #[trigger] call_requires(register, (request, driver)),
    ensures
        if CString::fits(CString::encoded(name@)) {
            exists|request: MergeDriverRegistration, reply: Reply<R>|
                {
                    &&& request.asks(name@)
                    &&& #[trigger] call_ensures(register, (request, driver), reply)
                    &&& reply.gives(r)
                }
        } else {
            r matches Err(e) && e@ == ErrorView::nul()
        },
{
    let name = match CString::from_bytes(name.as_bytes()) {
        Ok(name) => name,
        Err(e) => return Err(e),
    };
    let reply = register(MergeDriverRegistration { name, driver: RawMergeDriver::new() }, driver);
    reply.check()
}

/// Unregister a custom merge driver.
///
/// `unregister` asks libgit2 to forget the name (`git_merge_driver_unregister`).
pub fn unregister_merge_driver<C: FnOnce(CString) -> Reply<()>>(name: &str, unregister: C) -> (r:
    Result<(), Error>)
    requires
        forall|asked: CString| asked.is_text(name@) ==> #[trigger] call_requires(unregister, (asked,)),
    ensures
        if CString::fits(CString::encoded(name@)) {
            exists|asked: CString, reply: Reply<()>|
                {
                    &&& asked.is_text(name@)
                    &&& #[trigger] call_ensures(unregister, (asked,), reply)
                    &&& reply.gives(r)
                }
        } else {
            r matches Err(e) && e@ == ErrorView::nul()
        },
{
    let name = match CString::from_bytes(name.as_bytes()) {
        Ok(name) => name,
        Err(e) => return Err(e),
    };
    let reply = unregister(name);
    reply.check()
}

/// Look up a registered merge driver by name.
///
/// Returns `true` if a driver with the given name is registered, `false` otherwise.
/// `lookup` gives the address that libgit2 has for the name
/// (`git_merge_driver_lookup`), zero if none.
pub fn lookup_merge_driver<C: FnOnce(CString) -> usize>(name: &str, lookup: C) -> (found: bool)
    requires
        forall|asked: CString| asked.is_text(name@) ==> #[trigger] call_requires(lookup, (asked,)),
    ensures
        if CString::fits(CString::encoded(name@)) {
            exists|asked: CString, address: usize|
                {
                    &&& asked.is_text(name@)
                    &&& #[trigger] call_ensures(lookup, (asked,), address)
                    &&& found == (address != 0)
                }
        } else {
            !found
        },
{
    match CString::new(name.as_bytes()) {
        Ok(name) => {
            let address: usize = lookup(name);
            address != 0
        },
        Err(_) => false,
    }
}

/// The shutdown callback: runs the driver's `shutdown`, whose panics are dropped, and
/// ends the driver's state.
pub fn merge_driver_shutdown_cb<S: FnOnce() -> Option<()>>(_driver: RawMergeDriver, shutdown: S)
    requires
        call_requires(shutdown, ()),
    ensures
        exists|outcome: Option<()>| call_ensures(shutdown, (), outcome),
{
    let _ = shutdown();
}

/// The code that libgit2 gets says what the driver did. It is zero exactly if the driver
/// merged, libgit2 took the content, and C can take the path if there is one; the
/// out-parameters are touched in that case alone. It asks for the default driver
/// exactly if the driver did, and it reports a conflict exactly if the driver did.
pub proof fn law_apply_codes(outcome: Option<Result<MergeDriverApplyResult, Error>>, rc: i32)
    ensures
        ({
            let reply = ApplyReply::to_outcome(outcome, rc);
            &&& reply.code == 0 <==> {
                &&& outcome matches Some(Ok(MergeDriverApplyResult::Applied { content, path, mode }))
                &&& rc >= 0
                &&& path matches Some(p) ==> CString::fits(CString::encoded(p@))
            }
            &&& reply.code != 0 ==> reply == ApplyReply::bare(reply.code)
            &&& reply.code == GIT_PASSTHROUGH <==> outcome
                == Some(Ok::<MergeDriverApplyResult, Error>(MergeDriverApplyResult::Passthrough))
            &&& reply.code == GIT_EMERGECONFLICT <==> outcome
                == Some(Ok::<MergeDriverApplyResult, Error>(MergeDriverApplyResult::Conflict))
            &&& reply.code == 0 || reply.code == GIT_PASSTHROUGH || reply.code
                == GIT_EMERGECONFLICT || reply.code == GIT_ERROR
        }),
{
}

/// A path that libgit2 was given stays alive: the driver keeps one from then on, and it
/// only ever changes to the next path that libgit2 is given.
pub proof fn law_path_kept_alive(
    before: RawMergeDriver,
    after: RawMergeDriver,
    rc: i32,
    path: Option<String>,
    mode: Option<u32>,
)
    requires
        after.keeps_path(before, rc, path, mode),
    ensures
        before.last_path is Some ==> after.last_path is Some,
        ApplyReply::merged(rc, path, mode).path_set ==> {
            &&& after.last_path is Some
            &&& path is Some
            &&& after.last_path->0@ == CString::encoded(path->0@)
        },
        !ApplyReply::merged(rc, path, mode).path_set ==> after.last_path == before.last_path,
        after.initialized == before.initialized,
{
}

/// A driver is run under the name that it was registered under: the bytes that stand for
/// the name in the registration are read back as that name by the apply callback.
pub proof fn law_name_round_trip(name: Seq<char>)
    ensures
        vstd::utf8::valid_utf8(CString::encoded(name)),
        vstd::utf8::decode_utf8(CString::encoded(name)) == name,
{
    vstd::utf8::encode_utf8_valid_utf8(name);
    vstd::utf8::encode_utf8_decode_utf8(name);
}

} // verus!
