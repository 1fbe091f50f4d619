//! Blobs: file contents in the object database.
//!
//! What only libgit2 can do is handed to each operation as a function that makes the
//! call.
use vstd::prelude::*;

use crate::call::Reply;
use crate::cstring::CString;
use crate::error::{Error, ErrorView, IoError, IoErrorView};
use crate::handle::Object;
use crate::oid::Oid;
use crate::raw::{
    GIT_BLOB_FILTER_ATTRIBUTES_FROM_COMMIT, GIT_BLOB_FILTER_ATTRIBUTES_FROM_HEAD,
    GIT_BLOB_FILTER_CHECK_FOR_BINARY, GIT_BLOB_FILTER_NO_SYSTEM_ATTRIBUTES,
    GIT_BLOB_FILTER_OPTIONS_VERSION,
};

verus! {

/// Flags to control blob filtering behavior. The view is the set of bits as a number.
#[derive(Clone, Copy, Debug, PartialEq, Eq, PartialOrd, Ord, Hash, Structural)]
pub struct BlobFilterFlags {
    bits: u32,
}

impl View for BlobFilterFlags {
    type V = u32;

    closed spec fn view(&self) -> u32 {
        self.bits
    }
}

/// Sets of bits that have a meaning are closed under what is done to them here.
proof fn known_stay_known(a: u32, b: u32)
    by (bit_vector)
    ensures
        1u32 & 0xf == 1,
        2u32 & 0xf == 2,
        4u32 & 0xf == 4,
        8u32 & 0xf == 8,
        1u32 | 2 | 4 | 8 == 0xf,
        (a & 0xf) & 0xf == a & 0xf,
        a & 0xf == a && b & 0xf == b ==> (a | b) & 0xf == a | b,
{
}

impl BlobFilterFlags {
    #[verifier::type_invariant]
    spec fn only_known(self) -> bool {
        self.bits & 0xf == self.bits
    }

    /// The bits that have a meaning.
    pub open spec fn known() -> u32 {
        0xf
    }

    /// Whether `bits` holds every bit of `part`.
    pub open spec fn holds(bits: u32, part: u32) -> bool {
        bits & part == part
    }

    /// When set, filters will not be applied to binary files.
    pub fn check_for_binary() -> (flags: BlobFilterFlags)
        ensures
            flags@ == GIT_BLOB_FILTER_CHECK_FOR_BINARY,
    {
        proof {
            known_stay_known(0, 0);
        }
        BlobFilterFlags { bits: GIT_BLOB_FILTER_CHECK_FOR_BINARY }
    }

    /// Don't load `/etc/gitattributes` (or system equivalent).
    pub fn no_system_attributes() -> (flags: BlobFilterFlags)
        ensures
            flags@ == GIT_BLOB_FILTER_NO_SYSTEM_ATTRIBUTES,
    {
        proof {
            known_stay_known(0, 0);
        }
        BlobFilterFlags { bits: GIT_BLOB_FILTER_NO_SYSTEM_ATTRIBUTES }
    }

    /// Load attributes from `.gitattributes` in root of HEAD.
    pub fn attributes_from_head() -> (flags: BlobFilterFlags)
        ensures
            flags@ == GIT_BLOB_FILTER_ATTRIBUTES_FROM_HEAD,
    {
        proof {
            known_stay_known(0, 0);
        }
        BlobFilterFlags { bits: GIT_BLOB_FILTER_ATTRIBUTES_FROM_HEAD }
    }

    /// Load attributes from a specific commit.
    pub fn attributes_from_commit() -> (flags: BlobFilterFlags)
        ensures
            flags@ == GIT_BLOB_FILTER_ATTRIBUTES_FROM_COMMIT,
    {
        proof {
            known_stay_known(0, 0);
        }
        BlobFilterFlags { bits: GIT_BLOB_FILTER_ATTRIBUTES_FROM_COMMIT }
    }

    /// The bits as libgit2 takes them.
    pub fn bits(&self) -> (bits: u32)
        ensures
            bits == self@,
            bits & BlobFilterFlags::known() == bits,
    {
        proof {
            use_type_invariant(self);
        }
        self.bits
    }

    /// The flags among `bits`; bits without a meaning are dropped.
    pub fn from_bits_truncate(bits: u32) -> (flags: BlobFilterFlags)
        ensures
            flags@ == bits & BlobFilterFlags::known(),
    {
        let known: u32 = GIT_BLOB_FILTER_CHECK_FOR_BINARY | GIT_BLOB_FILTER_NO_SYSTEM_ATTRIBUTES
            | GIT_BLOB_FILTER_ATTRIBUTES_FROM_HEAD | GIT_BLOB_FILTER_ATTRIBUTES_FROM_COMMIT;
        proof {
            known_stay_known(bits, 0);
        }
        BlobFilterFlags { bits: bits & known }
    }

    /// Whether every flag of `other` is set.
    pub fn contains(&self, other: BlobFilterFlags) -> (r: bool)
        ensures
            r == BlobFilterFlags::holds(self@, other@),
    {
        self.bits & other.bits == other.bits
    }
}

impl core::ops::BitOr for BlobFilterFlags {
    type Output = BlobFilterFlags;

    fn bitor(self, other: BlobFilterFlags) -> (flags: BlobFilterFlags)
        ensures
            flags@ == self@ | other@,
    {
        proof {
            use_type_invariant(self);
            use_type_invariant(other);
            known_stay_known(self.bits, other.bits);
        }
        BlobFilterFlags { bits: self.bits | other.bits }
    }
}

impl vstd::std_specs::ops::BitOrSpecImpl for BlobFilterFlags {
    open spec fn obeys_bitor_spec() -> bool {
        true
    }

    open spec fn bitor_req(self, rhs: BlobFilterFlags) -> bool {
        true
    }

    closed spec fn bitor_spec(self, rhs: BlobFilterFlags) -> BlobFilterFlags {
        BlobFilterFlags { bits: self.bits | rhs.bits }
    }
}

impl Default for BlobFilterFlags {
    fn default() -> (flags: BlobFilterFlags)
        ensures
            flags@ == GIT_BLOB_FILTER_CHECK_FOR_BINARY,
    {
        BlobFilterFlags::check_for_binary()
    }
}

/// Options for filtering a blob.
#[derive(Clone, Copy, Debug)]
pub struct BlobFilterOptions {
    version: i32,
    flags: u32,
    attr_commit_id: Oid,
}

/// What [`BlobFilterOptions`] hold.
pub struct BlobFilterOptionsView {
    pub version: i32,
    pub flags: u32,
    pub attr_commit_id: Oid,
}

impl View for BlobFilterOptions {
    type V = BlobFilterOptionsView;

    closed spec fn view(&self) -> BlobFilterOptionsView {
        BlobFilterOptionsView {
            version: self.version,
            flags: self.flags,
            attr_commit_id: self.attr_commit_id,
        }
    }
}

impl BlobFilterOptionsView {
    /// The options with this version, these flags and this commit.
    pub open spec fn of(raw: (i32, u32, Oid)) -> BlobFilterOptionsView {
        BlobFilterOptionsView { version: raw.0, flags: raw.1, attr_commit_id: raw.2 }
    }

    /// Whether the options are zero all over.
    pub open spec fn is_zeroed(self) -> bool {
        &&& self.version == 0
        &&& self.flags == 0
        &&& self.attr_commit_id@ == Oid::zero_bytes()
    }

    /// The options with these flags in place of theirs.
    pub open spec fn with_flags(self, flags: BlobFilterFlags) -> BlobFilterOptionsView {
        BlobFilterOptionsView { flags: flags@, ..self }
    }

    /// The options with this commit in place of theirs.
    pub open spec fn with_attr_commit(self, commit: Oid) -> BlobFilterOptionsView {
        BlobFilterOptionsView { attr_commit_id: commit, ..self }
    }
}

impl BlobFilterOptions {
    /// Create a new set of blob filter options with default values.
    ///
    /// `init` has libgit2 fill in the zeroed options that it is handed, for the version
    /// that it is handed (`git_blob_filter_options_init`). It hands back the version, the
    /// flags and the commit.
    pub fn new<C: FnOnce((i32, u32, Oid), i32) -> (i32, u32, Oid)>(init: C) -> (opts:
        BlobFilterOptions)
        requires
            forall|zeroed: (i32, u32, Oid)|
                BlobFilterOptionsView::of(zeroed).is_zeroed() ==> #[trigger] call_requires(
                    init,
                    (zeroed, GIT_BLOB_FILTER_OPTIONS_VERSION),
                ),
        ensures
            exists|zeroed: (i32, u32, Oid), raw: (i32, u32, Oid)|
                {
                    &&& BlobFilterOptionsView::of(zeroed).is_zeroed()
                    &&& #[trigger] call_ensures(
                        init,
                        (zeroed, GIT_BLOB_FILTER_OPTIONS_VERSION),
                        raw,
                    )
                    &&& opts@ == BlobFilterOptionsView::of(raw)
                },
    {
        let raw = init((0, 0, Oid::zero()), GIT_BLOB_FILTER_OPTIONS_VERSION);
        BlobFilterOptions::from_raw(raw)
    }

    /// The options that libgit2 holds as this version, these flags and this commit.
    pub fn from_raw(raw: (i32, u32, Oid)) -> (opts: BlobFilterOptions)
        ensures
            opts@ == BlobFilterOptionsView::of(raw),
    {
        BlobFilterOptions { version: raw.0, flags: raw.1, attr_commit_id: raw.2 }
    }

    /// Set flags for blob filtering.
    pub fn flags(&mut self, flags: BlobFilterFlags) -> (this: &mut Self)
        ensures
            (*this)@ == old(self)@.with_flags(flags),
            *final(self) == *final(this),
    {
        self.flags = flags.bits();
        self
    }

    /// Set the commit from which to read attributes.
    ///
    /// Only used when ATTRIBUTES_FROM_COMMIT flag is set.
    pub fn attr_commit(&mut self, commit: Oid) -> (this: &mut Self)
        ensures
            (*this)@ == old(self)@.with_attr_commit(commit),
            *final(self) == *final(this),
    {
        self.attr_commit_id = commit;
        self
    }

    /// The version, the flags and the commit, as libgit2 takes them.
    pub fn raw(&self) -> (raw: (i32, u32, Oid))
        ensures
            raw == (self@.version, self@.flags, self@.attr_commit_id),
    {
        (self.version, self.flags, self.attr_commit_id)
    }
}

/// The two setters can come in either order, and of two calls of one setter the later
/// counts.
pub proof fn law_setters(
    opts: BlobFilterOptionsView,
    a: BlobFilterFlags,
    b: BlobFilterFlags,
    x: Oid,
    y: Oid,
)
    ensures
        opts.with_flags(a).with_attr_commit(x) == opts.with_attr_commit(x).with_flags(a),
        opts.with_flags(a).with_flags(b) == opts.with_flags(b),
        opts.with_attr_commit(x).with_attr_commit(y) == opts.with_attr_commit(y),
{
}

/// A blob, by its address in libgit2.
#[derive(Debug)]
pub struct Blob {
    object: Object,
}

impl View for Blob {
    type V = usize;

    closed spec fn view(&self) -> usize {
        self.object@
    }
}

/// A call of `git_blob_filter`.
pub struct BlobFilterCall {
    pub blob: usize,
    pub as_path: CString,
    pub opts: Option<BlobFilterOptions>,
}

impl BlobFilterCall {
    /// Whether the call is to filter this blob as if it were at this path, under these
    /// options if there are any.
    pub open spec fn asks(
        self,
        blob: Blob,
        as_path: Seq<u8>,
        opts: Option<&mut BlobFilterOptions>,
    ) -> bool {
        &&& self.blob == blob@
        &&& self.as_path.is_bytes(as_path)
        &&& self.opts == (match opts {
            Some(o) => Some(*o),
            None => None,
        })
    }
}

impl Blob {
    /// The blob at this address.
    pub fn from_raw(raw: usize) -> (blob: Blob)
        ensures
            blob@ == raw,
    {
        Blob { object: Object::from_raw(raw) }
    }

    /// The address.
    pub fn raw(&self) -> (raw: usize)
        ensures
            raw == self@,
    {
        self.object.raw()
    }

    /// The address of a blob that may be missing; zero stands for none.
    pub open spec fn address(blob: Option<&Blob>) -> usize {
        match blob {
            Some(b) => b@,
            None => 0,
        }
    }

    /// The address of a blob that may be missing; zero stands for none.
    pub fn raw_or_null(blob: Option<&Blob>) -> (raw: usize)
        ensures
            raw == Blob::address(blob),
    {
        match blob {
            Some(b) => b.raw(),
            None => 0,
        }
    }

    /// Get the id (SHA1) of a repository blob. `id` asks libgit2 (`git_blob_id`).
    pub fn id<C: FnOnce(usize) -> Oid>(&self, id: C) -> (oid: Oid)
        requires
            call_requires(id, (self@,)),
        ensures
            call_ensures(id, (self@,), oid),
    {
        id(self.raw())
    }

    /// Determine if the blob content is most certainly binary or not. `is_binary` asks
    /// libgit2 (`git_blob_is_binary`), whose answer is yes if it is one.
    pub fn is_binary<C: FnOnce(usize) -> i32>(&self, is_binary: C) -> (r: bool)
        requires
            call_requires(is_binary, (self@,)),
        ensures
            exists|rc: i32| #[trigger] call_ensures(is_binary, (self@,), rc) && r == (rc == 1),
    {
        let rc: i32 = is_binary(self.raw());
        rc == 1
    }

    /// Get the content of this blob. `content` reads it out of libgit2
    /// (`git_blob_rawcontent`, `git_blob_rawsize`).
    pub fn content<'a, C: FnOnce(usize) -> &'a [u8]>(&self, content: C) -> (bytes: &'a [u8])
        requires
            call_requires(content, (self@,)),
        ensures
            call_ensures(content, (self@,), bytes),
    {
        content(self.raw())
    }

    /// Get the size in bytes of the contents of this blob. `rawsize` asks libgit2
    /// (`git_blob_rawsize`).
    pub fn size<C: FnOnce(usize) -> u64>(&self, rawsize: C) -> (size: usize)
        requires
            call_requires(rawsize, (self@,)),
        ensures
            exists|n: u64|
                #[trigger] call_ensures(rawsize, (self@,), n) && size == n as usize,
    {
        let n: u64 = rawsize(self.raw());
        n as usize
    }

    /// Casts this Blob to be usable as an `Object`
    pub fn as_object(&self) -> (object: &Object)
        ensures
            object@ == self@,
    {
        &self.object
    }

    /// Consumes Blob to be returned as an `Object`
    pub fn into_object(self) -> (object: Object)
        ensures
            object@ == self@,
    {
        self.object
    }

    /// Filter blob content through the configured filters.
    ///
    /// This applies gitattributes filters (crlf, ident, etc.) to the blob content
    /// as if it were being checked out to the given path. `filter` makes the call
    /// (`git_blob_filter`) and hands back the filtered content.
    ///
    /// # Arguments
    /// * `as_path` - Path to use for attribute lookups
    /// * `opts` - Optional filtering options
    pub fn filter<C: FnOnce(BlobFilterCall) -> Reply<Vec<u8>>>(
        &self,
        as_path: &[u8],
        opts: Option<&mut BlobFilterOptions>,
        filter: C,
    ) -> (r: Result<Vec<u8>, Error>)
        requires
            forall|call: BlobFilterCall|
                call.asks(*self, as_path@, opts) ==> #[trigger] call_requires(filter, (call,)),
        ensures
            opts matches Some(o) ==> *final(o) == *o,
            if CString::fits(as_path@) {
                exists|call: BlobFilterCall, reply: Reply<Vec<u8>>|
                    {
                        &&& call.asks(*self, as_path@, opts)
                        &&& #[trigger] call_ensures(filter, (call,), reply)
                        &&& reply.gives(r)
                    }
            } else {
                r matches Err(e) && e@ == ErrorView::nul()
            },
    {
        let as_path = match CString::from_bytes(as_path) {
            Ok(as_path) => as_path,
            Err(e) => return Err(e),
        };
        let opts: Option<BlobFilterOptions> = match opts {
            Some(o) => Some(*o),
            None => None,
        };
        let reply = filter(BlobFilterCall { blob: self.raw(), as_path, opts });
        reply.check()
    }
}

/// A stream that a blob is written through, by its address in libgit2.
#[derive(Debug)]
pub struct BlobWriter {
    raw: usize,
    need_cleanup: bool,
}

/// What a [`BlobWriter`] holds.
pub struct BlobWriterView {
    pub raw: usize,
    /// Whether the stream has still to be freed.
    pub need_cleanup: bool,
}

impl BlobWriterView {
    /// The stream once it has been committed, or freed: libgit2 has done away with it.
    pub open spec fn done(self) -> BlobWriterView {
        BlobWriterView { raw: self.raw, need_cleanup: false }
    }

    /// Whether a cleanup frees the stream, given whether the stream can be freed at all.
    pub open spec fn frees(self, has_free: bool) -> bool {
        self.need_cleanup && has_free
    }
}

impl View for BlobWriter {
    type V = BlobWriterView;

    closed spec fn view(&self) -> BlobWriterView {
        BlobWriterView { raw: self.raw, need_cleanup: self.need_cleanup }
    }
}

impl BlobWriter {
    /// The stream at this address, not yet committed.
    pub fn from_raw(raw: usize) -> (writer: BlobWriter)
        ensures
            writer@ == (BlobWriterView { raw, need_cleanup: true }),
    {
        BlobWriter { raw, need_cleanup: true }
    }

    /// The address.
    pub fn raw(&self) -> (raw: usize)
        ensures
            raw == self@.raw,
    {
        self.raw
    }

    /// Finalize blob writing stream and write the blob to the object db.
    ///
    /// `commit` makes the call (`git_blob_create_fromstream_commit`), which frees the
    /// stream whether or not it succeeds. So a stream is committed once.
    pub fn commit<C: FnOnce(usize) -> Reply<Oid>>(&mut self, commit: C) -> (r: Result<Oid, Error>)
        requires
            old(self)@.need_cleanup,
            call_requires(commit, (old(self)@.raw,)),
        ensures
            final(self)@ == old(self)@.done(),
            exists|reply: Reply<Oid>|
                #[trigger] call_ensures(commit, (old(self)@.raw,), reply) && reply.gives(r),
    {
        // After commit we already don't need cleanup on drop
        self.need_cleanup = false;
        let reply = commit(self.raw);
        reply.check()
    }

    /// Frees the stream in case it has not been committed, through its free callback if
    /// it has one. Tells whether it did.
    pub fn cleanup<F: FnOnce(usize)>(&mut self, free: Option<F>) -> (freed: bool)
        requires
            old(self)@.need_cleanup ==> (free matches Some(f) ==> call_requires(
                f,
                (old(self)@.raw,),
            )),
        ensures
            freed == old(self)@.frees(free is Some),
            freed ==> call_ensures(free->0, (old(self)@.raw,), ()),
            final(self)@ == old(self)@.done(),
    {
        let needed = self.need_cleanup;
        self.need_cleanup = false;
        if needed {
            if let Some(f) = free {
                f(self.raw);
                return true;
            }
        }
        false
    }

    /// What comes of a write of `len` bytes, given the write callback's return code.
    pub open spec fn write_result(len: usize, rc: Option<i32>) -> Result<usize, IoErrorView> {
        match rc {
            Some(rc) => if rc < 0 {
                Err(IoErrorView::other("Write error"@))
            } else {
                Ok(len)
            },
            None => Err(IoErrorView::other("no write callback"@)),
        }
    }

    /// What comes of a write of `len` bytes, given the write callback's return code.
    pub fn written(len: usize, rc: Option<i32>) -> (r: Result<usize, IoError>)
        ensures
            IoError::same(r, BlobWriter::write_result(len, rc)),
    {
        match rc {
            Some(rc) => {
                if rc < 0 {
                    Err(IoError::other("Write error"))
                } else {
                    Ok(len)
                }
            },
            None => Err(IoError::other("no write callback")),
        }
    }

    /// Write `buf` to the stream, which must still be there, through its write callback, if
    /// it has one.
    pub fn write<W: FnOnce(usize, &[u8]) -> i32>(&mut self, buf: &[u8], write: Option<W>) -> (r:
        Result<usize, IoError>)
        requires
            old(self)@.need_cleanup,
            write matches Some(f) ==> call_requires(f, (old(self)@.raw, buf)),
        ensures
            *final(self) == *old(self),
            match write {
                Some(f) => exists|rc: i32|
                    {
                        &&& #[trigger] call_ensures(f, (old(self)@.raw, buf), rc)
                        &&& IoError::same(
                            r,
                            BlobWriter::write_result(buf@.len() as usize, Some(rc)),
                        )
                    },
                None => IoError::same(r, BlobWriter::write_result(buf@.len() as usize, None)),
            },
    {
        let rc: Option<i32> = match write {
            Some(f) => Some(f(self.raw, buf)),
            None => None,
        };
        BlobWriter::written(buf.len(), rc)
    }

    /// Nothing is held back, so there is nothing to flush.
    pub fn flush(&mut self) -> (r: Result<(), IoError>)
        ensures
            r is Ok,
            *final(self) == *old(self),
    {
        Ok(())
    }
}

/// A stream is freed at most once, and not at all once it has been committed: neither
/// after a commit nor after a cleanup is there anything left to free. Until then there
/// is.
pub proof fn law_freed_unless_committed(raw: usize, has_free: bool)
    ensures
        ({
            let fresh = BlobWriterView { raw, need_cleanup: true };
            &&& fresh.frees(has_free) == has_free
            &&& !fresh.done().frees(has_free)
            &&& fresh.done().raw == raw
        }),
{
}

} // verus!
