//! Blobs and the streams that write them.
use vstd::prelude::*;

use crate::blob::{Blob, BlobFilterCall, BlobFilterOptions, BlobWriter};
use crate::call::Reply;
use crate::error::{Error, IoError, IoErrorKind};
use crate::handle::Object;
use crate::oid::Oid;

verus! {

/// A blob keeps its address, also as an object; where there is no blob the address is zero.
pub proof fn law_blob_address_kept(
    raw: usize,
    blob: Blob,
    read: usize,
    seen: &Object,
    turned: Object,
    maybe: Option<&Blob>,
    address: usize,
)
    requires
        call_ensures(Blob::from_raw, (raw,), blob),
        call_ensures(Blob::raw, (&blob,), read),
        call_ensures(Blob::as_object, (&blob,), seen),
        call_ensures(Blob::into_object, (blob,), turned),
        call_ensures(Blob::raw_or_null, (maybe,), address),
    ensures
        blob@ == raw,
        read == raw,
        seen@ == raw,
        turned@ == raw,
        maybe matches Some(b) ==> address == b@,
        maybe is None ==> address == 0,
{
}

/// The id, the content, the size and whether the content is binary are what libgit2 says
/// of this blob; only the answer one means binary.
pub proof fn law_blob_facts<
    'a,
    I: FnOnce(usize) -> Oid,
    B: FnOnce(usize) -> i32,
    C: FnOnce(usize) -> &'a [u8],
    S: FnOnce(usize) -> u64,
>(
    blob: &Blob,
    id: I,
    oid: Oid,
    is_binary: B,
    binary: bool,
    content: C,
    bytes: &'a [u8],
    rawsize: S,
    size: usize,
)
    requires
        call_ensures(Blob::id::<I>, (blob, id), oid),
        call_ensures(Blob::is_binary::<B>, (blob, is_binary), binary),
        call_ensures(Blob::content::<C>, (blob, content), bytes),
        call_ensures(Blob::size::<S>, (blob, rawsize), size),
    ensures
        call_ensures(id, (blob@,), oid),
        exists|rc: i32| #[trigger] call_ensures(is_binary, (blob@,), rc) && (binary <==> rc == 1),
        call_ensures(content, (blob@,), bytes),
        exists|n: u64|
            {
                &&& #[trigger] call_ensures(rawsize, (blob@,), n)
                &&& n <= usize::MAX ==> size == n
            },
{
}

/// libgit2 can be asked through functions that take only this blob.
pub proof fn law_blob_facts_asks<
    'a,
    I: FnOnce(usize) -> Oid,
    B: FnOnce(usize) -> i32,
    C: FnOnce(usize) -> &'a [u8],
    S: FnOnce(usize) -> u64,
>(blob: &Blob, id: I, is_binary: B, content: C, rawsize: S)
    requires
        call_requires(id, (blob@,)),
        call_requires(is_binary, (blob@,)),
        call_requires(content, (blob@,)),
        call_requires(rawsize, (blob@,)),
    ensures
        call_requires(Blob::id::<I>, (blob, id)),
        call_requires(Blob::is_binary::<B>, (blob, is_binary)),
        call_requires(Blob::content::<C>, (blob, content)),
        call_requires(Blob::size::<S>, (blob, rawsize)),
{
}

/// libgit2 is asked to filter this blob, as if it were at this path, under these options as
/// they stand (under none exactly if none were given). What it answers is what comes out.
/// A path that C cannot take is refused.
pub proof fn law_blob_filter<C: FnOnce(BlobFilterCall) -> Reply<Vec<u8>>>(
    blob: &Blob,
    as_path: &[u8],
    opts: Option<&mut BlobFilterOptions>,
    filter: C,
    r: Result<Vec<u8>, Error>,
)
    requires
        call_ensures(Blob::filter::<C>, (blob, as_path, opts, filter), r),
    ensures
        opts matches Some(o) ==> *final(o) == *o,
        as_path@.contains(0u8) ==> (r matches Err(e) && e.code == -1 && e.klass == 0 && e.message@
            == "data contained a nul byte that could not be represented as a string"@),
        !as_path@.contains(0u8) ==> exists|call: BlobFilterCall, reply: Reply<Vec<u8>>|
            {
                &&& #[trigger] call_ensures(filter, (call,), reply)
                &&& call.blob == blob@
                &&& call.as_path@ == as_path@
                &&& call.opts is Some <==> opts is Some
                &&& opts matches Some(o) ==> call.opts == Some(*o)
                &&& match r {
                    Ok(out) => reply.rc >= 0 && out == reply.out,
                    Err(e) => reply.rc < 0 && e.code == reply.rc && match reply.last_error {
                        Some(last) => e.klass == last.klass && e.message@ == last.message@,
                        None => e.klass == 0 && e.message@ == "an unknown git error occurred"@,
                    },
                }
            },
{
}

/// A blob can be filtered through a function that makes that one call and no other.
pub proof fn law_blob_filter_asks<C: FnOnce(BlobFilterCall) -> Reply<Vec<u8>>>(
    blob: &Blob,
    as_path: &[u8],
    opts: Option<&mut BlobFilterOptions>,
    filter: C,
)
    requires
        forall|call: BlobFilterCall|
            ({
                &&& !as_path@.contains(0u8)
                &&& call.blob == blob@
                &&& call.as_path@ == as_path@
                &&& call.opts is Some <==> opts is Some
                &&& opts matches Some(o) ==> call.opts == Some(*o)
            }) ==> #[trigger] call_requires(filter, (call,)),
    ensures
        call_requires(Blob::filter::<C>, (blob, as_path, opts, filter)),
{
}

/// A new writer keeps its address and has still to be freed.
pub proof fn law_new_writer(raw: usize, writer: BlobWriter, read: usize)
    requires
        call_ensures(BlobWriter::from_raw, (raw,), writer),
        call_ensures(BlobWriter::raw, (&writer,), read),
    ensures
        read == raw,
        writer@.raw == raw,
        writer@.need_cleanup,
{
}

/// A commit is of this stream, its answer is what comes out, and whatever that is the
/// stream has not to be freed any more.
pub proof fn law_commit<C: FnOnce(usize) -> Reply<Oid>>(
    writer: &mut BlobWriter,
    commit: C,
    r: Result<Oid, Error>,
)
    requires
        call_ensures(BlobWriter::commit::<C>, (writer, commit), r),
    ensures
        !final(writer)@.need_cleanup,
        final(writer)@.raw == old(writer)@.raw,
        exists|reply: Reply<Oid>|
            {
                &&& #[trigger] call_ensures(commit, (old(writer)@.raw,), reply)
                &&& match r {
                    Ok(out) => reply.rc >= 0 && out == reply.out,
                    Err(e) => reply.rc < 0 && e.code == reply.rc && match reply.last_error {
                        Some(last) => e.klass == last.klass && e.message@ == last.message@,
                        None => e.klass == 0 && e.message@ == "an unknown git error occurred"@,
                    },
                }
            },
{
}

/// A stream that has still to be freed is freed, if it can be, and any other is not. After
/// that it has not to be freed any more.
pub proof fn law_cleanup<F: FnOnce(usize)>(writer: &mut BlobWriter, free: Option<F>, freed: bool)
    requires
        call_ensures(BlobWriter::cleanup::<F>, (writer, free), freed),
    ensures
        freed <==> old(writer)@.need_cleanup && free is Some,
        freed ==> call_ensures(free->0, (old(writer)@.raw,), ()),
        !final(writer)@.need_cleanup,
        final(writer)@.raw == old(writer)@.raw,
{
}

/// A writer can be given a commit of this stream while it has still to be freed, and a free
/// that must not be called when it has not.
pub proof fn law_writer_ends_asks<C: FnOnce(usize) -> Reply<Oid>, F: FnOnce(usize)>(
    writer: &mut BlobWriter,
    commit: C,
    free: Option<F>,
)
    requires
        old(writer)@.need_cleanup ==> call_requires(commit, (old(writer)@.raw,)),
        old(writer)@.need_cleanup && free is Some ==> call_requires(
            free->0,
            (old(writer)@.raw,),
        ),
    ensures
        old(writer)@.need_cleanup ==> call_requires(
            BlobWriter::commit::<C>,
            (writer, commit),
        ),
        call_requires(BlobWriter::cleanup::<F>, (writer, free)),
{
}

/// A write counts in full exactly if the stream has a write callback that does not fail;
/// the two failures are told apart.
pub proof fn law_written(len: usize, rc: Option<i32>, r: Result<usize, IoError>)
    requires
        call_ensures(BlobWriter::written, (len, rc), r),
    ensures
        r is Ok <==> (rc matches Some(n) && n >= 0),
        r matches Ok(n) ==> n == len,
        r matches Err(e) ==> e.kind == IoErrorKind::Other,
        r matches Err(e) ==> rc is Some ==> e.message@ == "Write error"@,
        r matches Err(e) ==> rc is None ==> e.message@ == "no write callback"@,
{
}

/// The stream is handed exactly what is to be written, and the writer is as before; what
/// comes of it is as the return code says. There is never anything to flush.
pub proof fn law_write<W: FnOnce(usize, &[u8]) -> i32>(
    writer: &mut BlobWriter,
    buf: &[u8],
    write: Option<W>,
    r: Result<usize, IoError>,
    flushing: &mut BlobWriter,
    flushed: Result<(), IoError>,
)
    requires
        call_ensures(BlobWriter::write::<W>, (writer, buf, write), r),
        call_ensures(BlobWriter::flush, (flushing,), flushed),
    ensures
        *final(writer) == *old(writer),
        *final(flushing) == *old(flushing),
        flushed is Ok,
        r matches Ok(n) ==> n == buf@.len(),
        r matches Err(e) ==> e.kind == IoErrorKind::Other,
        write is None ==> (r matches Err(e) && e.message@ == "no write callback"@),
        write matches Some(f) ==> exists|rc: i32|
            {
                &&& #[trigger] call_ensures(f, (old(writer)@.raw, buf), rc)
                &&& r is Ok <==> rc >= 0
                &&& r matches Err(e) ==> e.message@ == "Write error"@
            },
{
    assert(buf@.len() == buf.len());
}

/// A writer whose stream is still there can be given a callback that takes this stream and
/// this data only.
pub proof fn law_write_asks<W: FnOnce(usize, &[u8]) -> i32>(
    writer: &mut BlobWriter,
    buf: &[u8],
    write: Option<W>,
)
    requires
        old(writer)@.need_cleanup,
        write matches Some(f) ==> call_requires(f, (old(writer)@.raw, buf)),
    ensures
        call_requires(BlobWriter::write::<W>, (writer, buf, write)),
{
}

} // verus!
