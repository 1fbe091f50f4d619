//! Filter lists.
use vstd::prelude::*;

use crate::blob::Blob;
use crate::call::Reply;
use crate::cstring::CString;
use crate::error::{Error, IoError};
use crate::filter::flags::FilterFlags;
use crate::filter::list::{FileCall, FilterList, LoadCall, LoadExtCall};
use crate::filter::mode::FilterMode;
use crate::filter::options::FilterOptions;
use crate::filter::stream::{WriteStreamAdapter, WriteStreamCollector};
use crate::handle::Repository;

verus! {

/// A list keeps its address.
pub proof fn law_list_address_kept(raw: usize, list: FilterList, read: usize)
    requires
        call_ensures(FilterList::from_raw, (raw,), list),
        call_ensures(FilterList::raw, (&list,), read),
    ensures
        read == raw,
        list@ == raw,
{
}

/// What a load comes to: the list at the address that libgit2 gave, none if it gave none,
/// and libgit2's error if it failed.
pub proof fn law_loaded(reply: Reply<usize>, r: Result<Option<FilterList>, Error>)
    requires
        call_ensures(FilterList::loaded, (reply,), r),
    ensures
        r is Ok <==> reply.rc >= 0,
        match r {
            Ok(Some(list)) => reply.rc >= 0 && reply.out != 0 && list@ == reply.out,
            Ok(None) => reply.rc >= 0 && reply.out == 0,
            Err(e) => reply.rc < 0 && e.code == reply.rc && match reply.last_error {
                Some(last) => e.klass == last.klass && e.message@ == last.message@,
                None => e.klass == 0 && e.message@ == "an unknown git error occurred"@,
            },
        },
{
}

/// `load` asks libgit2 for the filters of this path, in this repository, for this blob (for
/// none exactly if none was given), in this direction and under these flags. What
/// libgit2 answers is what it comes to. A path that C cannot take is refused.
pub proof fn law_load<C: FnOnce(LoadCall) -> Reply<usize>>(
    repo: &Repository,
    blob: Option<&Blob>,
    path: &str,
    mode: FilterMode,
    flags: FilterFlags,
    load: C,
    r: Result<Option<FilterList>, Error>,
)
    requires
        call_ensures(FilterList::load::<C>, (repo, blob, path, mode, flags, load), r),
    ensures
        path@.contains('\0') ==> (r matches Err(e) && e.code == -1 && e.klass == 0 && e.message@
            == "data contained a nul byte that could not be represented as a string"@),
        !path@.contains('\0') ==> exists|call: LoadCall, reply: Reply<usize>|
            {
                &&& #[trigger] call_ensures(load, (call,), reply)
                &&& call.repo == repo@
                &&& blob matches Some(b) ==> call.blob == b@
                &&& blob is None ==> call.blob == 0
                &&& call.path@ == vstd::utf8::encode_utf8(path@)
                &&& mode is ToWorktree ==> call.mode == 0
                &&& mode is ToOdb ==> call.mode == 1
                &&& call.flags == flags@
                &&& match r {
                    Ok(Some(list)) => reply.rc >= 0 && reply.out != 0 && list@ == reply.out,
                    Ok(None) => reply.rc >= 0 && reply.out == 0,
                    Err(e) => reply.rc < 0 && e.code == reply.rc && match reply.last_error {
                        Some(last) => e.klass == last.klass && e.message@ == last.message@,
                        None => e.klass == 0 && e.message@ == "an unknown git error occurred"@,
                    },
                }
            },
{
    assert forall|text: Seq<char>|
        CString::fits(#[trigger] CString::encoded(text)) <==> !text.contains('\0') by {
        crate::cstring::law_text_fits(text);
    }
}

/// `load` can be given a function that makes that one call and no other, and that is never
/// called for a path that C cannot take.
pub proof fn law_load_asks<C: FnOnce(LoadCall) -> Reply<usize>>(
    repo: &Repository,
    blob: Option<&Blob>,
    path: &str,
    mode: FilterMode,
    flags: FilterFlags,
    load: C,
)
    requires
        forall|call: LoadCall|
            ({
                &&& !path@.contains('\0')
                &&& call.repo == repo@
                &&& blob matches Some(b) ==> call.blob == b@
                &&& blob is None ==> call.blob == 0
                &&& call.path@ == vstd::utf8::encode_utf8(path@)
                &&& mode is ToWorktree ==> call.mode == 0
                &&& mode is ToOdb ==> call.mode == 1
                &&& call.flags == flags@
            }) ==> #[trigger] call_requires(load, (call,)),
    ensures
        call_requires(FilterList::load::<C>, (repo, blob, path, mode, flags, load)),
{
    assert forall|text: Seq<char>|
        CString::fits(#[trigger] CString::encoded(text)) <==> !text.contains('\0') by {
        crate::cstring::law_text_fits(text);
    }
}

/// `load_ext` asks libgit2 for the filters of this path, in this repository, for this blob (for
/// none exactly if none was given), in this direction and under these options. What
/// libgit2 answers is what it comes to. A path that C cannot take is refused.
/// The options stay as they are.
pub proof fn law_load_ext<C: FnOnce(LoadExtCall) -> Reply<usize>>(
    repo: &Repository,
    blob: Option<&Blob>,
    path: &str,
    mode: FilterMode,
    opts: &mut FilterOptions,
    load: C,
    r: Result<Option<FilterList>, Error>,
)
    requires
        call_ensures(FilterList::load_ext::<C>, (repo, blob, path, mode, opts, load), r),
    ensures
        *final(opts) == *old(opts),
        path@.contains('\0') ==> (r matches Err(e) && e.code == -1 && e.klass == 0 && e.message@
            == "data contained a nul byte that could not be represented as a string"@),
        !path@.contains('\0') ==> exists|call: LoadExtCall, reply: Reply<usize>|
            {
                &&& #[trigger] call_ensures(load, (call,), reply)
                &&& call.repo == repo@
                &&& blob matches Some(b) ==> call.blob == b@
                &&& blob is None ==> call.blob == 0
                &&& call.path@ == vstd::utf8::encode_utf8(path@)
                &&& mode is ToWorktree ==> call.mode == 0
                &&& mode is ToOdb ==> call.mode == 1
                &&& call.opts == *old(opts)
                &&& match r {
                    Ok(Some(list)) => reply.rc >= 0 && reply.out != 0 && list@ == reply.out,
                    Ok(None) => reply.rc >= 0 && reply.out == 0,
                    Err(e) => reply.rc < 0 && e.code == reply.rc && match reply.last_error {
                        Some(last) => e.klass == last.klass && e.message@ == last.message@,
                        None => e.klass == 0 && e.message@ == "an unknown git error occurred"@,
                    },
                }
            },
{
    assert forall|text: Seq<char>|
        CString::fits(#[trigger] CString::encoded(text)) <==> !text.contains('\0') by {
        crate::cstring::law_text_fits(text);
    }
}

/// `load_ext` can be given a function that makes that one call and no other, and that is never
/// called for a path that C cannot take.
pub proof fn law_load_ext_asks<C: FnOnce(LoadExtCall) -> Reply<usize>>(
    repo: &Repository,
    blob: Option<&Blob>,
    path: &str,
    mode: FilterMode,
    opts: &mut FilterOptions,
    load: C,
)
    requires
        forall|call: LoadExtCall|
            ({
                &&& !path@.contains('\0')
                &&& call.repo == repo@
                &&& blob matches Some(b) ==> call.blob == b@
                &&& blob is None ==> call.blob == 0
                &&& call.path@ == vstd::utf8::encode_utf8(path@)
                &&& mode is ToWorktree ==> call.mode == 0
                &&& mode is ToOdb ==> call.mode == 1
                &&& call.opts == *old(opts)
            }) ==> #[trigger] call_requires(load, (call,)),
    ensures
        call_requires(FilterList::load_ext::<C>, (repo, blob, path, mode, opts, load)),
{
    assert forall|text: Seq<char>|
        CString::fits(#[trigger] CString::encoded(text)) <==> !text.contains('\0') by {
        crate::cstring::law_text_fits(text);
    }
}

/// A list is asked for a name as it stands; the answer is yes exactly if libgit2's number
/// is not zero. A name that C cannot take is refused.
pub proof fn law_contains<C: FnOnce(usize, CString) -> i32>(
    list: &FilterList,
    name: &str,
    contains: C,
    r: Result<bool, Error>,
)
    requires
        call_ensures(FilterList::contains::<C>, (list, name, contains), r),
    ensures
        name@.contains('\0') ==> (r matches Err(e) && e.code == -1 && e.klass == 0 && e.message@
            == "data contained a nul byte that could not be represented as a string"@),
        !name@.contains('\0') ==> exists|asked: CString, rc: i32|
            {
                &&& #[trigger] call_ensures(contains, (list@, asked), rc)
                &&& asked@ == vstd::utf8::encode_utf8(name@)
                &&& r == Ok::<bool, Error>(rc != 0)
            },
{
    assert forall|text: Seq<char>|
        CString::fits(#[trigger] CString::encoded(text)) <==> !text.contains('\0') by {
        crate::cstring::law_text_fits(text);
    }
}

/// A list can be asked through a function that takes only this list and this name.
pub proof fn law_contains_asks<C: FnOnce(usize, CString) -> i32>(
    list: &FilterList,
    name: &str,
    contains: C,
)
    requires
        forall|asked: CString|
            !name@.contains('\0') && asked@ == vstd::utf8::encode_utf8(name@)
                ==> #[trigger] call_requires(contains, (list@, asked)),
    ensures
        call_requires(FilterList::contains::<C>, (list, name, contains)),
{
    assert forall|text: Seq<char>|
        CString::fits(#[trigger] CString::encoded(text)) <==> !text.contains('\0') by {
        crate::cstring::law_text_fits(text);
    }
}

/// The length is libgit2's for this list, and a list is empty exactly if that is zero.
pub proof fn law_length<C: FnOnce(usize) -> usize, D: FnOnce(usize) -> usize>(
    list: &FilterList,
    length: C,
    n: usize,
    again: D,
    empty: bool,
)
    requires
        call_ensures(FilterList::len::<C>, (list, length), n),
        call_ensures(FilterList::is_empty::<D>, (list, again), empty),
    ensures
        call_ensures(length, (list@,), n),
        exists|m: usize| #[trigger] call_ensures(again, (list@,), m) && (empty <==> m == 0),
{
}

/// The length can be asked for through a function that takes only this list.
pub proof fn law_length_asks<C: FnOnce(usize) -> usize>(list: &FilterList, length: C)
    requires
        call_requires(length, (list@,)),
    ensures
        call_requires(FilterList::len::<C>, (list, length)),
        call_requires(FilterList::is_empty::<C>, (list, length)),
{
}

/// The list is applied to the whole input, and what libgit2 wrote is what comes out.
pub proof fn law_apply_to_buffer<C: FnOnce(usize, &[u8]) -> Reply<Vec<u8>>>(
    list: &FilterList,
    input: &[u8],
    apply: C,
    r: Result<Vec<u8>, Error>,
)
    requires
        call_ensures(FilterList::apply_to_buffer::<C>, (list, input, apply), r),
    ensures
        exists|reply: Reply<Vec<u8>>|
            {
                &&& #[trigger] call_ensures(apply, (list@, input), reply)
                &&& match r {
                    Ok(out) => reply.rc >= 0 && out == reply.out,
                    Err(e) => reply.rc < 0 && e.code == reply.rc && match reply.last_error {
                        Some(last) => e.klass == last.klass && e.message@ == last.message@,
                        None => e.klass == 0 && e.message@ == "an unknown git error occurred"@,
                    },
                }
            },
{
}

/// The list is applied to this blob, and what libgit2 wrote is what comes out.
pub proof fn law_apply_to_blob<C: FnOnce(usize, usize) -> Reply<Vec<u8>>>(
    list: &FilterList,
    blob: &Blob,
    apply: C,
    r: Result<Vec<u8>, Error>,
)
    requires
        call_ensures(FilterList::apply_to_blob::<C>, (list, blob, apply), r),
    ensures
        exists|reply: Reply<Vec<u8>>|
            {
                &&& #[trigger] call_ensures(apply, (list@, blob@), reply)
                &&& match r {
                    Ok(out) => reply.rc >= 0 && out == reply.out,
                    Err(e) => reply.rc < 0 && e.code == reply.rc && match reply.last_error {
                        Some(last) => e.klass == last.klass && e.message@ == last.message@,
                        None => e.klass == 0 && e.message@ == "an unknown git error occurred"@,
                    },
                }
            },
{
}

/// A list can be applied through functions that take only this list and this input or blob.
pub proof fn law_apply_asks<
    B: FnOnce(usize, &[u8]) -> Reply<Vec<u8>>,
    O: FnOnce(usize, usize) -> Reply<Vec<u8>>,
>(list: &FilterList, input: &[u8], to_buffer: B, blob: &Blob, to_blob: O)
    requires
        call_requires(to_buffer, (list@, input)),
        call_requires(to_blob, (list@, blob@)),
    ensures
        call_requires(FilterList::apply_to_buffer::<B>, (list, input, to_buffer)),
        call_requires(FilterList::apply_to_blob::<O>, (list, blob, to_blob)),
{
}

/// The list is applied to the file at this path in this repository, and what libgit2 wrote
/// is what comes out. A path that C cannot take is refused.
pub proof fn law_apply_to_file<C: FnOnce(FileCall) -> Reply<Vec<u8>>>(
    list: &FilterList,
    repo: &Repository,
    path: &[u8],
    apply: C,
    r: Result<Vec<u8>, Error>,
)
    requires
        call_ensures(FilterList::apply_to_file::<C>, (list, repo, path, apply), r),
    ensures
        path@.contains(0u8) ==> (r matches Err(e) && e.code == -1 && e.klass == 0 && e.message@
            == "data contained a nul byte that could not be represented as a string"@),
        !path@.contains(0u8) ==> exists|call: FileCall, reply: Reply<Vec<u8>>|
            {
                &&& #[trigger] call_ensures(apply, (call,), reply)
                &&& call.list == list@ && call.repo == repo@ && call.path@ == path@
                &&& match r {
                    Ok(out) => reply.rc >= 0 && out == reply.out,
                    Err(e) => reply.rc < 0 && e.code == reply.rc && match reply.last_error {
                        Some(last) => e.klass == last.klass && e.message@ == last.message@,
                        None => e.klass == 0 && e.message@ == "an unknown git error occurred"@,
                    },
                }
            },
{
}

/// A list can be applied to a file through a function that takes that one call only.
pub proof fn law_apply_to_file_asks<C: FnOnce(FileCall) -> Reply<Vec<u8>>>(
    list: &FilterList,
    repo: &Repository,
    path: &[u8],
    apply: C,
)
    requires
        forall|call: FileCall|
            !path@.contains(0u8) && call.list == list@ && call.repo == repo@ && call.path@
                == path@ ==> #[trigger] call_requires(apply, (call,)),
    ensures
        call_requires(FilterList::apply_to_file::<C>, (list, repo, path, apply)),
{
}

/// What a stream into a collector comes to: what was collected, or libgit2's error.
pub proof fn law_collected(
    reply: Reply<()>,
    collector: WriteStreamCollector,
    data: Vec<u8>,
    r: Result<Vec<u8>, Error>,
)
    requires
        call_ensures(FilterList::collected, (reply, collector), r),
        call_ensures(WriteStreamCollector::into_data, (collector,), data),
    ensures
        r is Ok <==> reply.rc >= 0,
        r matches Ok(out) ==> out@ == data@,
        r matches Err(e) ==> e.code == reply.rc && match reply.last_error {
            Some(last) => e.klass == last.klass && e.message@ == last.message@,
            None => e.klass == 0 && e.message@ == "an unknown git error occurred"@,
        },
{
}

/// What a stream into a writer comes to: libgit2's error, or else the text of an error
/// that the writer had, or else success.
pub proof fn law_finished(
    reply: Reply<()>,
    adapter: WriteStreamAdapter,
    end: Result<(), IoError>,
    r: Result<(), Error>,
)
    requires
        call_ensures(FilterList::finished, (reply, adapter), r),
        call_ensures(WriteStreamAdapter::finish, (adapter,), end),
    ensures
        r is Ok <==> reply.rc >= 0 && end is Ok,
        r matches Err(e) ==> reply.rc < 0 ==> e.code == reply.rc && match reply.last_error {
            Some(last) => e.klass == last.klass && e.message@ == last.message@,
            None => e.klass == 0 && e.message@ == "an unknown git error occurred"@,
        },
        r matches Err(e) ==> reply.rc >= 0 ==> e.code == -1 && e.klass == 0 && e.message@
            == end->Err_0.message@,
{
}

/// libgit2 streams this input through this list into
/// an empty collector. What that then holds is what comes out, unless libgit2 fails.
pub proof fn law_stream_buffer<
    C: FnOnce(usize, &[u8], WriteStreamCollector) -> (Reply<()>, WriteStreamCollector),
>(
    list: &FilterList,
    input: &[u8],
    stream: C,
    r: Result<Vec<u8>, Error>,
)
    requires
        call_ensures(FilterList::stream_buffer::<C>, (list, input, stream), r),
    ensures
        exists|
            target: WriteStreamCollector,
            end: (Reply<()>, WriteStreamCollector),
        |
            {
                &&& #[trigger] call_ensures(stream, (list@, input, target), end)
                &&& target@.len() == 0
                &&& match r {
                    Ok(data) => end.0.rc >= 0 && data@ == end.1@,
                    Err(e) => end.0.rc < 0 && e.code == end.0.rc && match end.0.last_error {
                        Some(last) => e.klass == last.klass && e.message@ == last.message@,
                        None => e.klass == 0 && e.message@ == "an unknown git error occurred"@,
                    },
                }
            },
{
}

/// `stream_buffer` can be given a function that makes that one call and no other.
pub proof fn law_stream_buffer_asks<
    C: FnOnce(usize, &[u8], WriteStreamCollector) -> (Reply<()>, WriteStreamCollector),
>(
    list: &FilterList,
    input: &[u8],
    stream: C,
)
    requires
        forall|
            target: WriteStreamCollector,
        |
            target@.len() == 0 ==> #[trigger] call_requires(
                stream,
                (list@, input, target),
            ),
    ensures
        call_requires(FilterList::stream_buffer::<C>, (list, input, stream)),
{
}

/// libgit2 streams this input through this list into
/// an adapter that has kept no error. Whether it has kept one then is what comes out, unless libgit2 fails.
pub proof fn law_stream_buffer_to_writer<
    C: FnOnce(usize, &[u8], WriteStreamAdapter) -> (Reply<()>, WriteStreamAdapter),
>(
    list: &FilterList,
    input: &[u8],
    stream: C,
    r: Result<(), Error>,
)
    requires
        call_ensures(FilterList::stream_buffer_to_writer::<C>, (list, input, stream), r),
    ensures
        exists|
            target: WriteStreamAdapter,
            end: (Reply<()>, WriteStreamAdapter),
        |
            {
                &&& #[trigger] call_ensures(stream, (list@, input, target), end)
                &&& target@ is None
                &&& match r {
                    Ok(_) => end.0.rc >= 0 && end.1@ is None,
                    Err(e) => if end.0.rc < 0 {
                        e.code == end.0.rc && match end.0.last_error {
                            Some(last) => e.klass == last.klass && e.message@ == last.message@,
                            None => e.klass == 0 && e.message@ == "an unknown git error occurred"@,
                        }
                    } else {
                        &&& end.1@ is Some
                        &&& e.code == -1 && e.klass == 0 && e.message@ == end.1@->0.message@
                    },
                }
            },
{
}

/// `stream_buffer_to_writer` can be given a function that makes that one call and no other.
pub proof fn law_stream_buffer_to_writer_asks<
    C: FnOnce(usize, &[u8], WriteStreamAdapter) -> (Reply<()>, WriteStreamAdapter),
>(
    list: &FilterList,
    input: &[u8],
    stream: C,
)
    requires
        forall|
            target: WriteStreamAdapter,
        |
            target@ is None ==> #[trigger] call_requires(
                stream,
                (list@, input, target),
            ),
    ensures
        call_requires(FilterList::stream_buffer_to_writer::<C>, (list, input, stream)),
{
}

/// libgit2 streams the file at this path in this repository through this list into
/// an empty collector. What that then holds is what comes out, unless libgit2 fails.
/// A path that C cannot take is refused.
pub proof fn law_stream_file<
    C: FnOnce(FileCall, WriteStreamCollector) -> (Reply<()>, WriteStreamCollector),
>(
    list: &FilterList,
    repo: &Repository,
    path: &[u8],
    stream: C,
    r: Result<Vec<u8>, Error>,
)
    requires
        call_ensures(FilterList::stream_file::<C>, (list, repo, path, stream), r),
    ensures
        path@.contains(0u8) ==> (r matches Err(e) && e.code == -1 && e.klass == 0 && e.message@
            == "data contained a nul byte that could not be represented as a string"@),
        !path@.contains(0u8) ==> exists|
            call: FileCall,
            target: WriteStreamCollector,
            end: (Reply<()>, WriteStreamCollector),
        |
            {
                &&& #[trigger] call_ensures(stream, (call, target), end)
                &&& call.list == list@ && call.repo == repo@ && call.path@ == path@
                &&& target@.len() == 0
                &&& match r {
                    Ok(data) => end.0.rc >= 0 && data@ == end.1@,
                    Err(e) => end.0.rc < 0 && e.code == end.0.rc && match end.0.last_error {
                        Some(last) => e.klass == last.klass && e.message@ == last.message@,
                        None => e.klass == 0 && e.message@ == "an unknown git error occurred"@,
                    },
                }
            },
{
}

/// `stream_file` can be given a function that makes that one call and no other.
pub proof fn law_stream_file_asks<
    C: FnOnce(FileCall, WriteStreamCollector) -> (Reply<()>, WriteStreamCollector),
>(
    list: &FilterList,
    repo: &Repository,
    path: &[u8],
    stream: C,
)
    requires
        forall|
            call: FileCall,
            target: WriteStreamCollector,
        |
            !path@.contains(0u8) && call.list == list@ && call.repo == repo@ && call.path@
                == path@ && target@.len() == 0 ==> #[trigger] call_requires(
                stream,
                (call, target),
            ),
    ensures
        call_requires(FilterList::stream_file::<C>, (list, repo, path, stream)),
{
}

/// libgit2 streams the file at this path in this repository through this list into
/// an adapter that has kept no error. Whether it has kept one then is what comes out, unless libgit2 fails.
/// A path that C cannot take is refused.
pub proof fn law_stream_file_to_writer<
    C: FnOnce(FileCall, WriteStreamAdapter) -> (Reply<()>, WriteStreamAdapter),
>(
    list: &FilterList,
    repo: &Repository,
    path: &[u8],
    stream: C,
    r: Result<(), Error>,
)
    requires
        call_ensures(FilterList::stream_file_to_writer::<C>, (list, repo, path, stream), r),
    ensures
        path@.contains(0u8) ==> (r matches Err(e) && e.code == -1 && e.klass == 0 && e.message@
            == "data contained a nul byte that could not be represented as a string"@),
        !path@.contains(0u8) ==> exists|
            call: FileCall,
            target: WriteStreamAdapter,
            end: (Reply<()>, WriteStreamAdapter),
        |
            {
                &&& #[trigger] call_ensures(stream, (call, target), end)
                &&& call.list == list@ && call.repo == repo@ && call.path@ == path@
                &&& target@ is None
                &&& match r {
                    Ok(_) => end.0.rc >= 0 && end.1@ is None,
                    Err(e) => if end.0.rc < 0 {
                        e.code == end.0.rc && match end.0.last_error {
                            Some(last) => e.klass == last.klass && e.message@ == last.message@,
                            None => e.klass == 0 && e.message@ == "an unknown git error occurred"@,
                        }
                    } else {
                        &&& end.1@ is Some
                        &&& e.code == -1 && e.klass == 0 && e.message@ == end.1@->0.message@
                    },
                }
            },
{
}

/// `stream_file_to_writer` can be given a function that makes that one call and no other.
pub proof fn law_stream_file_to_writer_asks<
    C: FnOnce(FileCall, WriteStreamAdapter) -> (Reply<()>, WriteStreamAdapter),
>(
    list: &FilterList,
    repo: &Repository,
    path: &[u8],
    stream: C,
)
    requires
        forall|
            call: FileCall,
            target: WriteStreamAdapter,
        |
            !path@.contains(0u8) && call.list == list@ && call.repo == repo@ && call.path@
                == path@ && target@ is None ==> #[trigger] call_requires(
                stream,
                (call, target),
            ),
    ensures
        call_requires(FilterList::stream_file_to_writer::<C>, (list, repo, path, stream)),
{
}

/// libgit2 streams this blob through this list into
/// an empty collector. What that then holds is what comes out, unless libgit2 fails.
pub proof fn law_stream_blob<
    C: FnOnce(usize, usize, WriteStreamCollector) -> (Reply<()>, WriteStreamCollector),
>(
    list: &FilterList,
    blob: &Blob,
    stream: C,
    r: Result<Vec<u8>, Error>,
)
    requires
        call_ensures(FilterList::stream_blob::<C>, (list, blob, stream), r),
    ensures
        exists|
            target: WriteStreamCollector,
            end: (Reply<()>, WriteStreamCollector),
        |
            {
                &&& #[trigger] call_ensures(stream, (list@, blob@, target), end)
                &&& target@.len() == 0
                &&& match r {
                    Ok(data) => end.0.rc >= 0 && data@ == end.1@,
                    Err(e) => end.0.rc < 0 && e.code == end.0.rc && match end.0.last_error {
                        Some(last) => e.klass == last.klass && e.message@ == last.message@,
                        None => e.klass == 0 && e.message@ == "an unknown git error occurred"@,
                    },
                }
            },
{
}

/// `stream_blob` can be given a function that makes that one call and no other.
pub proof fn law_stream_blob_asks<
    C: FnOnce(usize, usize, WriteStreamCollector) -> (Reply<()>, WriteStreamCollector),
>(
    list: &FilterList,
    blob: &Blob,
    stream: C,
)
    requires
        forall|
            target: WriteStreamCollector,
        |
            target@.len() == 0 ==> #[trigger] call_requires(
                stream,
                (list@, blob@, target),
            ),
    ensures
        call_requires(FilterList::stream_blob::<C>, (list, blob, stream)),
{
}

/// libgit2 streams this blob through this list into
/// an adapter that has kept no error. Whether it has kept one then is what comes out, unless libgit2 fails.
pub proof fn law_stream_blob_to_writer<
    C: FnOnce(usize, usize, WriteStreamAdapter) -> (Reply<()>, WriteStreamAdapter),
>(
    list: &FilterList,
    blob: &Blob,
    stream: C,
    r: Result<(), Error>,
)
    requires
        call_ensures(FilterList::stream_blob_to_writer::<C>, (list, blob, stream), r),
    ensures
        exists|
            target: WriteStreamAdapter,
            end: (Reply<()>, WriteStreamAdapter),
        |
            {
                &&& #[trigger] call_ensures(stream, (list@, blob@, target), end)
                &&& target@ is None
                &&& match r {
                    Ok(_) => end.0.rc >= 0 && end.1@ is None,
                    Err(e) => if end.0.rc < 0 {
                        e.code == end.0.rc && match end.0.last_error {
                            Some(last) => e.klass == last.klass && e.message@ == last.message@,
                            None => e.klass == 0 && e.message@ == "an unknown git error occurred"@,
                        }
                    } else {
                        &&& end.1@ is Some
                        &&& e.code == -1 && e.klass == 0 && e.message@ == end.1@->0.message@
                    },
                }
            },
{
}

/// `stream_blob_to_writer` can be given a function that makes that one call and no other.
pub proof fn law_stream_blob_to_writer_asks<
    C: FnOnce(usize, usize, WriteStreamAdapter) -> (Reply<()>, WriteStreamAdapter),
>(
    list: &FilterList,
    blob: &Blob,
    stream: C,
)
    requires
        forall|
            target: WriteStreamAdapter,
        |
            target@ is None ==> #[trigger] call_requires(
                stream,
                (list@, blob@, target),
            ),
    ensures
        call_requires(FilterList::stream_blob_to_writer::<C>, (list, blob, stream)),
{
}

} // verus!
