//! Lists of filters to apply to a file.
//!
//! libgit2 loads a list and applies it; each operation is handed a function that makes
//! the one call into it.
use vstd::prelude::*;

use crate::blob::Blob;
use crate::call::Reply;
use crate::cstring::CString;
use crate::error::{Error, ErrorView, IoError};
use crate::filter::flags::FilterFlags;
use crate::filter::mode::FilterMode;
use crate::filter::options::FilterOptions;
use crate::filter::stream::{WriteStreamAdapter, WriteStreamCollector};
use crate::handle::Repository;

verus! {

/// A list of filters that should be applied to a file, by its address in libgit2.
///
/// A FilterList represents the sequence of filters that need to be applied
/// to transform a file in a specific direction (to worktree or to ODB).
#[derive(Debug)]
pub struct FilterList {
    raw: usize,
}

impl View for FilterList {
    type V = usize;

    closed spec fn view(&self) -> usize {
        self.raw
    }
}

/// A call of `git_filter_list_load`.
pub struct LoadCall {
    pub repo: usize,
    /// Zero stands for no blob.
    pub blob: usize,
    pub path: CString,
    pub mode: u32,
    pub flags: u32,
}

/// A call of `git_filter_list_load_ext`.
pub struct LoadExtCall {
    pub repo: usize,
    /// Zero stands for no blob.
    pub blob: usize,
    pub path: CString,
    pub mode: u32,
    pub opts: FilterOptions,
}

/// A call of `git_filter_list_apply_to_file` or `git_filter_list_stream_file`.
pub struct FileCall {
    pub list: usize,
    pub repo: usize,
    pub path: CString,
}

impl LoadCall {
    /// Whether the call is to load the filters for this path, in this mode, under these
    /// flags.
    pub open spec fn asks(
        self,
        repo: Repository,
        blob: Option<&Blob>,
        path: Seq<char>,
        mode: FilterMode,
        flags: FilterFlags,
    ) -> bool {
        &&& self.repo == repo@
        &&& self.blob == Blob::address(blob)
        &&& self.path.is_text(path)
        &&& self.mode == mode.as_raw()
        &&& self.flags == flags@
    }
}

impl LoadExtCall {
    /// Whether the call is to load the filters for this path, in this mode, under these
    /// options.
    pub open spec fn asks(
        self,
        repo: Repository,
        blob: Option<&Blob>,
        path: Seq<char>,
        mode: FilterMode,
        opts: FilterOptions,
    ) -> bool {
        &&& self.repo == repo@
        &&& self.blob == Blob::address(blob)
        &&& self.path.is_text(path)
        &&& self.mode == mode.as_raw()
        &&& self.opts == opts
    }
}

impl FileCall {
    /// Whether the call is to put this file through this list.
    pub open spec fn asks(self, list: FilterList, repo: Repository, path: Seq<u8>) -> bool {
        &&& self.list == list@
        &&& self.repo == repo@
        &&& self.path.is_bytes(path)
    }
}

impl FilterList {
    /// The list at this address.
    pub fn from_raw(raw: usize) -> (list: FilterList)
        ensures
            list@ == raw,
    {
        FilterList { raw }
    }

    /// The address.
    pub fn raw(&self) -> (raw: usize)
        ensures
            raw == self@,
    {
        self.raw
    }

    /// Whether `r` is what a load comes to that libgit2 answered with `reply`: an error
    /// if it failed, no list if it wrote no address, and the list at that address
    /// otherwise.
    pub open spec fn load_gives(
        reply: Reply<usize>,
        r: Result<Option<FilterList>, Error>,
    ) -> bool {
        match r {
            Ok(Some(list)) => !reply.failed() && reply.out != 0 && list@ == reply.out,
            Ok(None) => !reply.failed() && reply.out == 0,
            Err(e) => reply.failed() && e@ == reply.error(),
        }
    }

    /// What a load comes to that libgit2 answered with `reply`.
    pub fn loaded(reply: Reply<usize>) -> (r: Result<Option<FilterList>, Error>)
        ensures
            FilterList::load_gives(reply, r),
    {
        match reply.check() {
            Ok(raw) => {
                if raw == 0 {
                    Ok(None)
                } else {
                    Ok(Some(FilterList { raw }))
                }
            },
            Err(e) => Err(e),
        }
    }

    /// Load the filters that should be applied to a file.
    ///
    /// Returns `Ok(None)` if no filters are configured for the given path.
    pub fn load<C: FnOnce(LoadCall) -> Reply<usize>>(
        repo: &Repository,
        blob: Option<&Blob>,
        path: &str,
        mode: FilterMode,
        flags: FilterFlags,
        load: C,
    ) -> (r: Result<Option<FilterList>, Error>)
        requires
            forall|call: LoadCall|
                call.asks(*repo, blob, path@, mode, flags) ==> #[trigger] call_requires(
                    load,
                    (call,),
                ),
        ensures
            if CString::fits(CString::encoded(path@)) {
                exists|call: LoadCall, reply: Reply<usize>|
                    {
                        &&& call.asks(*repo, blob, path@, mode, flags)
                        &&& #[trigger] call_ensures(load, (call,), reply)
                        &&& FilterList::load_gives(reply, r)
                    }
            } else {
                r matches Err(e) && e@ == ErrorView::nul()
            },
    {
        let path = match CString::from_bytes(path.as_bytes()) {
            Ok(path) => path,
            Err(e) => return Err(e),
        };
        let reply = load(
            LoadCall {
                repo: repo.raw(),
                blob: Blob::raw_or_null(blob),
                path,
                mode: mode.raw(),
                flags: flags.bits(),
            },
        );
        FilterList::loaded(reply)
    }

    /// Load the filters with extended options.
    ///
    /// Returns `Ok(None)` if no filters are configured for the given path.
    pub fn load_ext<C: FnOnce(LoadExtCall) -> Reply<usize>>(
        repo: &Repository,
        blob: Option<&Blob>,
        path: &str,
        mode: FilterMode,
        opts: &mut FilterOptions,
        load: C,
    ) -> (r: Result<Option<FilterList>, Error>)
        requires
            forall|call: LoadExtCall|
                call.asks(*repo, blob, path@, mode, *old(opts)) ==> #[trigger] call_requires(
                    load,
                    (call,),
                ),
        ensures
            *final(opts) == *old(opts),
            if CString::fits(CString::encoded(path@)) {
                exists|call: LoadExtCall, reply: Reply<usize>|
                    {
                        &&& call.asks(*repo, blob, path@, mode, *old(opts))
                        &&& #[trigger] call_ensures(load, (call,), reply)
                        &&& FilterList::load_gives(reply, r)
                    }
            } else {
                r matches Err(e) && e@ == ErrorView::nul()
            },
    {
        let path = match CString::from_bytes(path.as_bytes()) {
            Ok(path) => path,
            Err(e) => return Err(e),
        };
        let reply = load(
            LoadExtCall {
                repo: repo.raw(),
                blob: Blob::raw_or_null(blob),
                path,
                mode: mode.raw(),
                opts: *opts,
            },
        );
        FilterList::loaded(reply)
    }

    /// Whether `found` is what libgit2's answer on this name comes to.
    pub open spec fn contains_gives<C: FnOnce(usize, CString) -> i32>(
        contains: C,
        list: FilterList,
        name: Seq<char>,
        found: bool,
    ) -> bool {
        exists|asked: CString, rc: i32|
            {
                &&& asked.is_text(name)
                &&& #[trigger] call_ensures(contains, (list@, asked), rc)
                &&& found == (rc != 0)
            }
    }

    /// Check if a filter with the given name is in this filter list.
    ///
    /// Common filter names include "crlf" and "ident".
    ///
    /// Returns an error if the filter name contains interior null bytes. `contains` asks
    /// libgit2 (`git_filter_list_contains`), whose answer is yes if it is not zero.
    pub fn contains<C: FnOnce(usize, CString) -> i32>(&self, name: &str, contains: C) -> (r: Result<
        bool,
        Error,
    >)
        requires
            forall|asked: CString|
                asked.is_text(name@) ==> #[trigger] call_requires(contains, (self@, asked)),
        ensures
            if CString::fits(CString::encoded(name@)) {
                r matches Ok(found) && FilterList::contains_gives(contains, *self, name@, found)
            } else {
                r matches Err(e) && e@ == ErrorView::nul()
            },
    {
        let name = match CString::from_bytes(name.as_bytes()) {
            Ok(name) => name,
            Err(e) => return Err(e),
        };
        let rc: i32 = contains(self.raw(), name);
        Ok(rc != 0)
    }

    /// Get the number of filters in this filter list. `length` asks libgit2
    /// (`git_filter_list_length`).
    pub fn len<C: FnOnce(usize) -> usize>(&self, length: C) -> (n: usize)
        requires
            call_requires(length, (self@,)),
        ensures
            call_ensures(length, (self@,), n),
    {
        length(self.raw())
    }

    /// Whether `r` is what libgit2's answer on the length comes to.
    pub open spec fn empty_gives<C: FnOnce(usize) -> usize>(
        length: C,
        list: FilterList,
        r: bool,
    ) -> bool {
        exists|n: usize| #[trigger] call_ensures(length, (list@,), n) && r == (n == 0)
    }

    /// Check if this filter list is empty.
    pub fn is_empty<C: FnOnce(usize) -> usize>(&self, length: C) -> (r: bool)
        requires
            call_requires(length, (self@,)),
        ensures
            FilterList::empty_gives(length, *self, r),
    {
        self.len(length) == 0
    }

    /// Apply the filter list to a buffer. `apply` makes the call
    /// (`git_filter_list_apply_to_buffer`) and hands back what it wrote.
    pub fn apply_to_buffer<C: FnOnce(usize, &[u8]) -> Reply<Vec<u8>>>(
        &self,
        input: &[u8],
        apply: C,
    ) -> (r: Result<Vec<u8>, Error>)
        requires
            call_requires(apply, (self@, input)),
        ensures
            exists|reply: Reply<Vec<u8>>|
                #[trigger] call_ensures(apply, (self@, input), reply) && reply.gives(r),
    {
        let reply = apply(self.raw(), input);
        reply.check()
    }

    /// The call for a file, or the error for a path that C cannot take.
    fn file_call(&self, repo: &Repository, path: &[u8]) -> (r: Result<FileCall, Error>)
        ensures
            match r {
                Ok(call) => call.asks(*self, *repo, path@),
                Err(e) => !CString::fits(path@) && e@ == ErrorView::nul(),
            },
    {
        match CString::from_bytes(path) {
            Ok(path) => Ok(FileCall { list: self.raw(), repo: repo.raw(), path }),
            Err(e) => Err(e),
        }
    }

    /// Apply the filter list to a file on disk. `apply` makes the call
    /// (`git_filter_list_apply_to_file`) and hands back what it wrote.
    pub fn apply_to_file<C: FnOnce(FileCall) -> Reply<Vec<u8>>>(
        &self,
        repo: &Repository,
        path: &[u8],
        apply: C,
    ) -> (r: Result<Vec<u8>, Error>)
        requires
            forall|call: FileCall|
                call.asks(*self, *repo, path@) ==> #[trigger] call_requires(apply, (call,)),
        ensures
            if CString::fits(path@) {
                exists|call: FileCall, reply: Reply<Vec<u8>>|
                    {
                        &&& call.asks(*self, *repo, path@)
                        &&& #[trigger] call_ensures(apply, (call,), reply)
                        &&& reply.gives(r)
                    }
            } else {
                r matches Err(e) && e@ == ErrorView::nul()
            },
    {
        let call = match self.file_call(repo, path) {
            Ok(call) => call,
            Err(e) => return Err(e),
        };
        let reply = apply(call);
        reply.check()
    }

    /// Apply the filter list to a blob. `apply` makes the call
    /// (`git_filter_list_apply_to_blob`) and hands back what it wrote.
    pub fn apply_to_blob<C: FnOnce(usize, usize) -> Reply<Vec<u8>>>(
        &self,
        blob: &Blob,
        apply: C,
    ) -> (r: Result<Vec<u8>, Error>)
        requires
            call_requires(apply, (self@, blob@)),
        ensures
            exists|reply: Reply<Vec<u8>>|
                #[trigger] call_ensures(apply, (self@, blob@), reply) && reply.gives(r),
    {
        let reply = apply(self.raw(), blob.raw());
        reply.check()
    }

    /// Whether `r` is what a stream into a collector comes to: an error if libgit2 says
    /// so, and what was collected otherwise.
    pub open spec fn collect_gives(
        reply: Reply<()>,
        collected: Seq<u8>,
        r: Result<Vec<u8>, Error>,
    ) -> bool {
        match r {
            Ok(data) => !reply.failed() && data@ == collected,
            Err(e) => reply.failed() && e@ == reply.error(),
        }
    }

    /// What a stream into `collector` comes to.
    pub fn collected(reply: Reply<()>, collector: WriteStreamCollector) -> (r: Result<
        Vec<u8>,
        Error,
    >)
        ensures
            FilterList::collect_gives(reply, collector@, r),
    {
        match reply.check() {
            Ok(()) => Ok(collector.into_data()),
            Err(e) => Err(e),
        }
    }

    /// Whether `r` is what a stream into a writer comes to: an error if libgit2 says so;
    /// if it does not, the text of an error that the writer had; success otherwise.
    pub open spec fn write_gives(
        reply: Reply<()>,
        error: Option<IoError>,
        r: Result<(), Error>,
    ) -> bool {
        if reply.failed() {
            r matches Err(e) && e@ == reply.error()
        } else {
            match error {
                Some(io) => r matches Err(e) && e@ == ErrorView::plain(io@.message),
                None => r is Ok,
            }
        }
    }

    /// What a stream into the writer behind `adapter` comes to.
    pub fn finished(reply: Reply<()>, adapter: WriteStreamAdapter) -> (r: Result<(), Error>)
        ensures
            FilterList::write_gives(reply, adapter@, r),
    {
        match reply.check() {
            Ok(()) => match adapter.finish() {
                Ok(()) => Ok(()),
                Err(e) => Err(e.into_error()),
            },
            Err(e) => Err(e),
        }
    }

    /// Stream the filter list applied to a buffer, collecting the result. `stream` makes
    /// the call (`git_filter_list_stream_buffer`) with the collector as the target.
    pub fn stream_buffer<
        C: FnOnce(usize, &[u8], WriteStreamCollector) -> (Reply<()>, WriteStreamCollector),
    >(&self, input: &[u8], stream: C) -> (r: Result<Vec<u8>, Error>)
        requires
            forall|target: WriteStreamCollector|
                target@ == Seq::<u8>::empty() ==> #[trigger] call_requires(stream, (self@, input, target)),
        ensures
            exists|target: WriteStreamCollector, end: (Reply<()>, WriteStreamCollector)|
                {
                    &&& target@ == Seq::<u8>::empty()
                    &&& #[trigger] call_ensures(stream, (self@, input, target), end)
                    &&& FilterList::collect_gives(end.0, end.1@, r)
                },
    {
        let (reply, collector) = stream(self.raw(), input, WriteStreamCollector::new());
        FilterList::collected(reply, collector)
    }

    /// Stream the filter list applied to a buffer into a writer. `stream` makes the call
    /// (`git_filter_list_stream_buffer`) with the adapter as the target.
    pub fn stream_buffer_to_writer<
        C: FnOnce(usize, &[u8], WriteStreamAdapter) -> (Reply<()>, WriteStreamAdapter),
    >(&self, input: &[u8], stream: C) -> (r: Result<(), Error>)
        requires
            forall|target: WriteStreamAdapter|
                target@ is None ==> #[trigger] call_requires(stream, (self@, input, target)),
        ensures
            exists|target: WriteStreamAdapter, end: (Reply<()>, WriteStreamAdapter)|
                {
                    &&& target@ is None
                    &&& #[trigger] call_ensures(stream, (self@, input, target), end)
                    &&& FilterList::write_gives(end.0, end.1@, r)
                },
    {
        let (reply, adapter) = stream(self.raw(), input, WriteStreamAdapter::new());
        FilterList::finished(reply, adapter)
    }

    /// Stream the filter list applied to a file, collecting the result. `stream` makes
    /// the call (`git_filter_list_stream_file`) with the collector as the target.
    ///
    /// The path should be relative to the repository working directory.
    pub fn stream_file<
        C: FnOnce(FileCall, WriteStreamCollector) -> (Reply<()>, WriteStreamCollector),
    >(&self, repo: &Repository, path: &[u8], stream: C) -> (r: Result<Vec<u8>, Error>)
        requires
            forall|call: FileCall, target: WriteStreamCollector|
                call.asks(*self, *repo, path@) && target@ == Seq::<u8>::empty()
                    ==> #[trigger] call_requires(stream, (call, target)),
        ensures
            if CString::fits(path@) {
                exists|
                    call: FileCall,
                    target: WriteStreamCollector,
                    end: (Reply<()>, WriteStreamCollector),
                |
                    {
                        &&& call.asks(*self, *repo, path@)
                        &&& target@ == Seq::<u8>::empty()
                        &&& #[trigger] call_ensures(stream, (call, target), end)
                        &&& FilterList::collect_gives(end.0, end.1@, r)
                    }
            } else {
                r matches Err(e) && e@ == ErrorView::nul()
            },
    {
        let call = match self.file_call(repo, path) {
            Ok(call) => call,
            Err(e) => return Err(e),
        };
        let (reply, collector) = stream(call, WriteStreamCollector::new());
        FilterList::collected(reply, collector)
    }

    /// Stream the filter list applied to a file into a writer. `stream` makes the call
    /// (`git_filter_list_stream_file`) with the adapter as the target.
    ///
    /// The path should be relative to the repository working directory.
    pub fn stream_file_to_writer<
        C: FnOnce(FileCall, WriteStreamAdapter) -> (Reply<()>, WriteStreamAdapter),
    >(&self, repo: &Repository, path: &[u8], stream: C) -> (r: Result<(), Error>)
        requires
            forall|call: FileCall, target: WriteStreamAdapter|
                call.asks(*self, *repo, path@) && target@ is None
                    ==> #[trigger] call_requires(stream, (call, target)),
        ensures
            if CString::fits(path@) {
                exists|
                    call: FileCall,
                    target: WriteStreamAdapter,
                    end: (Reply<()>, WriteStreamAdapter),
                |
                    {
                        &&& call.asks(*self, *repo, path@)
                        &&& target@ is None
                        &&& #[trigger] call_ensures(stream, (call, target), end)
                        &&& FilterList::write_gives(end.0, end.1@, r)
                    }
            } else {
                r matches Err(e) && e@ == ErrorView::nul()
            },
    {
        let call = match self.file_call(repo, path) {
            Ok(call) => call,
            Err(e) => return Err(e),
        };
        let (reply, adapter) = stream(call, WriteStreamAdapter::new());
        FilterList::finished(reply, adapter)
    }

    /// Stream the filter list applied to a blob, collecting the result. `stream` makes
    /// the call (`git_filter_list_stream_blob`) with the collector as the target.
    pub fn stream_blob<
        C: FnOnce(usize, usize, WriteStreamCollector) -> (Reply<()>, WriteStreamCollector),
    >(&self, blob: &Blob, stream: C) -> (r: Result<Vec<u8>, Error>)
        requires
            forall|target: WriteStreamCollector|
                target@ == Seq::<u8>::empty() ==> #[trigger] call_requires(stream, (self@, blob@, target)),
        ensures
            exists|target: WriteStreamCollector, end: (Reply<()>, WriteStreamCollector)|
                {
                    &&& target@ == Seq::<u8>::empty()
                    &&& #[trigger] call_ensures(stream, (self@, blob@, target), end)
                    &&& FilterList::collect_gives(end.0, end.1@, r)
                },
    {
        let (reply, collector) = stream(self.raw(), blob.raw(), WriteStreamCollector::new());
        FilterList::collected(reply, collector)
    }

    /// Stream the filter list applied to a blob into a writer. `stream` makes the call
    /// (`git_filter_list_stream_blob`) with the adapter as the target.
    pub fn stream_blob_to_writer<
        C: FnOnce(usize, usize, WriteStreamAdapter) -> (Reply<()>, WriteStreamAdapter),
    >(&self, blob: &Blob, stream: C) -> (r: Result<(), Error>)
        requires
            forall|target: WriteStreamAdapter|
                target@ is None ==> #[trigger] call_requires(stream, (self@, blob@, target)),
        ensures
            exists|target: WriteStreamAdapter, end: (Reply<()>, WriteStreamAdapter)|
                {
                    &&& target@ is None
                    &&& #[trigger] call_ensures(stream, (self@, blob@, target), end)
                    &&& FilterList::write_gives(end.0, end.1@, r)
                },
    {
        let (reply, adapter) = stream(self.raw(), blob.raw(), WriteStreamAdapter::new());
        FilterList::finished(reply, adapter)
    }
}

/// What a stream into a collector gives is everything that came through it, in order and
/// whatever the cuts; it gives that exactly if libgit2 reports no failure.
pub proof fn law_stream_collects_everything(
    chunks: Seq<Seq<u8>>,
    reply: Reply<()>,
    r: Result<Vec<u8>, Error>,
)
    requires
        FilterList::collect_gives(
            reply,
            WriteStreamCollector::after_chunks(Seq::<u8>::empty(), chunks),
            r,
        ),
    ensures
        r is Ok <==> !reply.failed(),
        r matches Ok(data) ==> data@ == chunks.flatten(),
{
    crate::filter::stream::law_collector_concatenates(Seq::<u8>::empty(), chunks);
    assert(Seq::<u8>::empty() + chunks.flatten() =~= chunks.flatten());
}

/// A failure of the writer is not lost: a stream into a writer succeeds exactly if libgit2
/// reports no failure and the writer never failed. If libgit2 reports none, the error tells
/// of the writer's latest failure.
pub proof fn law_writer_failure_is_reported(
    answers: Seq<Result<(), IoError>>,
    reply: Reply<()>,
    r: Result<(), Error>,
)
    requires
        FilterList::write_gives(reply, WriteStreamAdapter::after_answers(answers), r),
    ensures
        r is Ok <==> !reply.failed() && (forall|i: int|
            0 <= i < answers.len() ==> (#[trigger] answers[i]) is Ok),
        !reply.failed() && r is Err ==> exists|i: int|
            {
                &&& 0 <= i < answers.len()
                &&& #[trigger] answers[i] matches Err(io) && r->Err_0@ == ErrorView::plain(
                    io@.message,
                )
                &&& forall|j: int| i < j < answers.len() ==> answers[j] is Ok
            },
{
    crate::filter::stream::law_adapter_keeps_latest_error(answers);
}

/// A writer that never fails ends up with what it had and, after it, what a collector
/// would have collected: for one run of chunks and one answer of libgit2, if collecting
/// gives data then so does writing succeed, and the writer has got that data.
pub proof fn law_writer_gets_what_is_collected<
    W: FnOnce(&[u8]) -> Result<(), IoError>,
    F: FnOnce() -> Result<(), IoError>,
>(
    writes: Seq<W>,
    chunks: Seq<&[u8]>,
    errors: Seq<Option<IoError>>,
    codes: Seq<i32>,
    got: Seq<Seq<u8>>,
    flush: F,
    end: Option<IoError>,
    end_code: i32,
    reply: Reply<()>,
    collected: Result<Vec<u8>, Error>,
    written: Result<(), Error>,
)
    requires
        FilterList::collect_gives(
            reply,
            WriteStreamCollector::after_chunks(
                Seq::<u8>::empty(),
                crate::filter::stream::contents(chunks),
            ),
            collected,
        ),
        errors.len() > 0 && errors[0] is None,
        crate::filter::stream::is_run(writes, chunks, errors, codes),
        WriteStreamAdapter::close_leads(flush, errors.last(), end, end_code),
        FilterList::write_gives(reply, end, written),
        crate::filter::stream::take_all(writes, got),
        forall|k: int, bytes: &[u8], answer: Result<(), IoError>|
            #![trigger call_ensures(writes[k], (bytes,), answer)]
            0 <= k < writes.len() && call_ensures(writes[k], (bytes,), answer) ==> answer is Ok,
        forall|answer: Result<(), IoError>| #[trigger]
            call_ensures(flush, (), answer) ==> answer is Ok,
    ensures
        collected is Ok <==> written is Ok,
        collected matches Ok(data) ==> got.last() == got[0] + data@,
        collected matches Err(c) ==> written->Err_0@ == c@,
{
    assert forall|k: int| 0 <= k < codes.len() implies #[trigger] codes[k] == 0 by {
        assert(WriteStreamAdapter::write_leads(
            writes[k],
            errors[k],
            chunks[k],
            errors[k + 1],
            codes[k],
        ));
    }
    crate::filter::stream::law_writer_gets_every_chunk(writes, chunks, errors, codes, got);
    law_stream_collects_everything(crate::filter::stream::contents(chunks), reply, collected);
}

/// A list is empty exactly if its length is zero, as long as libgit2 says the same length
/// each time. And it is not empty if it contains a filter, as long as libgit2 has none in a
/// list of length zero.
pub proof fn law_empty_has_no_filters<
    L: FnOnce(usize) -> usize,
    C: FnOnce(usize, CString) -> i32,
>(
    list: FilterList,
    length: L,
    contains: C,
    n: usize,
    empty: bool,
    name: Seq<char>,
    found: bool,
)
    requires
        call_ensures(length, (list@,), n),
        FilterList::empty_gives(length, list, empty),
        FilterList::contains_gives(contains, list, name, found),
        forall|m: usize| #[trigger] call_ensures(length, (list@,), m) ==> m == n,
        n == 0 ==> forall|asked: CString, rc: i32| #[trigger]
            call_ensures(contains, (list@, asked), rc) ==> rc == 0,
    ensures
        empty <==> n == 0,
        found ==> !empty,
{
}

/// To load under flags is to load under new options with those flags: libgit2 is handed the
/// same repository, blob, path, mode and flags, and where it answers the two alike (the same
/// failure, or a list for both or for neither) they come to the same.
pub proof fn law_load_ext_agrees_with_load(
    repo: Repository,
    blob: Option<&Blob>,
    path: Seq<char>,
    mode: FilterMode,
    flags: FilterFlags,
    fresh: FilterOptions,
    opts: FilterOptions,
    call: LoadCall,
    ext_call: LoadExtCall,
    reply: Reply<usize>,
    ext_reply: Reply<usize>,
    r: Result<Option<FilterList>, Error>,
    ext_r: Result<Option<FilterList>, Error>,
)
    requires
        fresh@.is_new(),
        opts@ == fresh@.with_flags(flags),
        call.asks(repo, blob, path, mode, flags),
        ext_call.asks(repo, blob, path, mode, opts),
        FilterList::load_gives(reply, r),
        FilterList::load_gives(ext_reply, ext_r),
        reply.rc == ext_reply.rc,
        reply.last_error == ext_reply.last_error,
        reply.out == 0 <==> ext_reply.out == 0,
    ensures
        call.repo == ext_call.repo,
        call.blob == ext_call.blob,
        call.path@ == ext_call.path@,
        call.mode == ext_call.mode,
        ext_call.opts@.flags == call.flags,
        ext_call.opts@.version == fresh@.version,
        ext_call.opts@.attr_commit_id@ == crate::oid::Oid::zero_bytes(),
        match r {
            Ok(Some(_)) => ext_r matches Ok(Some(_)),
            Ok(None) => ext_r matches Ok(None),
            Err(e) => ext_r matches Err(ext_e) && ext_e@ == e@,
        },
{
}

} // verus!
