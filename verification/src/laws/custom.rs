//! Custom filters and their callbacks.
use vstd::prelude::*;

use crate::call::Reply;
use crate::cstring::CString;
use crate::error::{Error, IoError, IoErrorKind};
use crate::filter::custom::{
    filter_cleanup_cb, filter_init_cb, filter_shutdown_cb, filter_stream_cb,
    filter_stream_close_cb, filter_stream_write_cb, lookup_filter, register_filter,
    unregister_filter, CheckReply, Filter, FilterRegistration, PayloadUpdate, RawFilter,
    RawFilterStream, StreamReply,
};
use crate::filter::source::FilterSource;
use crate::init::InitStep;

verus! {

/// libgit2 is asked to register exactly this filter, under this name, at this priority and
/// with the attributes that the filter names, as one that has not been used. What libgit2
/// answers is what the registration comes to. A name, or attributes, that C cannot take are
/// refused.
pub proof fn law_register_filter<F: Filter, R, C: FnOnce(FilterRegistration, F) -> Reply<R>>(
    name: &str,
    filter: F,
    priority: i32,
    register: C,
    r: Result<R, Error>,
)
    requires
        call_ensures(register_filter::<F, R, C>, (name, filter, priority, register), r),
    ensures
        name@.contains('\0') ==> (r matches Err(e) && e.code == -1 && e.klass == 0 && e.message@
            == "data contained a nul byte that could not be represented as a string"@),
        !name@.contains('\0') ==> exists|attributes: &str|
            {
                &&& #[trigger] call_ensures(F::attributes, (&filter,), attributes)
                &&& attributes@.contains('\0') ==> (r matches Err(e) && e.code == -1 && e.klass == 0 && e.message@
                    == "data contained a nul byte that could not be represented as a string"@)
                &&& !attributes@.contains('\0') ==> exists|
                    request: FilterRegistration,
                    reply: Reply<R>,
                |
                    {
                        &&& #[trigger] call_ensures(register, (request, filter), reply)
                        &&& request.name@ == vstd::utf8::encode_utf8(name@)
                        &&& request.priority == priority
                        &&& request.filter.version == 1
                        &&& request.filter.attributes@ == vstd::utf8::encode_utf8(attributes@)
                        &&& !request.filter.initialized
                        &&& match r {
                            Ok(out) => reply.rc >= 0 && out == reply.out,
                            Err(e) => reply.rc < 0 && e.code == reply.rc && match reply.last_error {
                                Some(last) => e.klass == last.klass && e.message@ == last.message@,
                                None => e.klass == 0 && e.message@ == "an unknown git error occurred"@,
                            },
                        }
                    }
            },
{
    assert forall|text: Seq<char>|
        CString::fits(#[trigger] CString::encoded(text)) <==> !text.contains('\0') by {
        crate::cstring::law_text_fits(text);
    }
}

/// A filter can be registered through a function that makes that one call and no other.
pub proof fn law_register_filter_asks<
    F: Filter,
    R,
    C: FnOnce(FilterRegistration, F) -> Reply<R>,
>(name: &str, filter: F, priority: i32, register: C)
    requires
        forall|request: FilterRegistration, attributes: &str|
            #![trigger call_requires(register, (request, filter)), attributes@]
            ({
                &&& !name@.contains('\0')
                &&& call_ensures(F::attributes, (&filter,), attributes)
                &&& !attributes@.contains('\0')
                &&& request.name@ == vstd::utf8::encode_utf8(name@)
                &&& request.priority == priority
                &&& request.filter.version == 1
                &&& request.filter.attributes@ == vstd::utf8::encode_utf8(attributes@)
                &&& !request.filter.initialized
            }) ==> call_requires(register, (request, filter)),
    ensures
        call_requires(register_filter::<F, R, C>, (name, filter, priority, register)),
{
    assert forall|text: Seq<char>|
        CString::fits(#[trigger] CString::encoded(text)) <==> !text.contains('\0') by {
        crate::cstring::law_text_fits(text);
    }
}

/// Priorities keep their order: of two filters that libgit2 is asked to register, the one
/// given the lower priority is asked for at the lower one, and equal ones stay equal.
pub proof fn law_priorities_keep_order<
    F: Filter,
    R,
    C: FnOnce(FilterRegistration, F) -> Reply<R>,
>(
    name: &str,
    filter: F,
    priority: i32,
    register: C,
    r: R,
    other_name: &str,
    other: F,
    other_priority: i32,
    other_register: C,
    other_r: R,
)
    requires
        call_ensures(
            register_filter::<F, R, C>,
            (name, filter, priority, register),
            Ok::<R, Error>(r),
        ),
        call_ensures(
            register_filter::<F, R, C>,
            (other_name, other, other_priority, other_register),
            Ok::<R, Error>(other_r),
        ),
    ensures
        exists|
            request: FilterRegistration,
            reply: Reply<R>,
            other_request: FilterRegistration,
            other_reply: Reply<R>,
        |
            {
                &&& #[trigger] call_ensures(register, (request, filter), reply)
                &&& #[trigger] call_ensures(other_register, (other_request, other), other_reply)
                &&& reply.out == r && other_reply.out == other_r
                &&& priority < other_priority <==> request.priority < other_request.priority
                &&& priority == other_priority <==> request.priority == other_request.priority
            },
{
    law_register_filter(name, filter, priority, register, Ok::<R, Error>(r));
    law_register_filter(
        other_name,
        other,
        other_priority,
        other_register,
        Ok::<R, Error>(other_r),
    );
}

/// libgit2 is asked to forget exactly this name, and its answer is what comes out.
pub proof fn law_unregister_filter<C: FnOnce(CString) -> Reply<()>>(
    name: &str,
    unregister: C,
    r: Result<(), Error>,
)
    requires
        call_ensures(unregister_filter::<C>, (name, unregister), r),
    ensures
        name@.contains('\0') ==> (r matches Err(e) && e.code == -1 && e.klass == 0 && e.message@
            == "data contained a nul byte that could not be represented as a string"@),
        !name@.contains('\0') ==> exists|asked: CString, reply: Reply<()>|
            {
                &&& #[trigger] call_ensures(unregister, (asked,), reply)
                &&& asked@ == vstd::utf8::encode_utf8(name@)
                &&& match r {
                    Ok(out) => reply.rc >= 0 && out == reply.out,
                    Err(e) => reply.rc < 0 && e.code == reply.rc && match reply.last_error {
                        Some(last) => e.klass == last.klass && e.message@ == last.message@,
                        None => e.klass == 0 && e.message@ == "an unknown git error occurred"@,
                    },
                }
            },
{
    assert forall|text: Seq<char>|
        CString::fits(#[trigger] CString::encoded(text)) <==> !text.contains('\0') by {
        crate::cstring::law_text_fits(text);
    }
}

/// A filter is found exactly if libgit2 has an address for its name; a name that C cannot
/// take is not found.
pub proof fn law_lookup_filter<C: FnOnce(CString) -> usize>(name: &str, lookup: C, found: bool)
    requires
        call_ensures(lookup_filter::<C>, (name, lookup), found),
    ensures
        name@.contains('\0') ==> !found,
        !name@.contains('\0') ==> exists|asked: CString, address: usize|
            {
                &&& #[trigger] call_ensures(lookup, (asked,), address)
                &&& asked@ == vstd::utf8::encode_utf8(name@)
                &&& found <==> address != 0
            },
{
    assert forall|text: Seq<char>|
        CString::fits(#[trigger] CString::encoded(text)) <==> !text.contains('\0') by {
        crate::cstring::law_text_fits(text);
    }
}

/// A name can be forgotten and looked up through functions that take only that name.
pub proof fn law_filter_name_asks<C: FnOnce(CString) -> Reply<()>, D: FnOnce(CString) -> usize>(
    name: &str,
    unregister: C,
    lookup: D,
)
    requires
        forall|asked: CString|
            !name@.contains('\0') && asked@ == vstd::utf8::encode_utf8(name@)
                ==> #[trigger] call_requires(unregister, (asked,)),
        forall|asked: CString|
            !name@.contains('\0') && asked@ == vstd::utf8::encode_utf8(name@)
                ==> #[trigger] call_requires(lookup, (asked,)),
    ensures
        call_requires(unregister_filter::<C>, (name, unregister)),
        call_requires(lookup_filter::<D>, (name, lookup)),
{
    assert forall|text: Seq<char>|
        CString::fits(#[trigger] CString::encoded(text)) <==> !text.contains('\0') by {
        crate::cstring::law_text_fits(text);
    }
}

/// Notes on a run of `initialize`: it counts exactly if it succeeded, and it never undoes an
/// earlier success. The code is zero exactly for a success.
pub proof fn law_init_noted(
    initialized: &mut bool,
    outcome: Option<Result<(), Error>>,
    rc: i32,
    filter: &mut RawFilter,
    filter_rc: i32,
)
    requires
        call_ensures(InitStep::take, (initialized, outcome), rc),
        call_ensures(RawFilter::init_done, (filter, outcome), filter_rc),
    ensures
        *final(initialized) <==> *old(initialized) || (outcome matches Some(Ok(_))),
        rc == (if outcome matches Some(Ok(_)) { 0int } else { -1int }),
        filter_rc == rc,
        final(filter).initialized <==> old(filter).initialized || (outcome matches Some(Ok(_))),
        final(filter).version == old(filter).version,
        final(filter).attributes == old(filter).attributes,
{
}

/// A new filter has the first version, the attributes given and has not been used.
pub proof fn law_new_filter(attributes: CString, filter: RawFilter)
    requires
        call_ensures(RawFilter::new, (attributes,), filter),
    ensures
        filter.version == 1,
        filter.attributes == attributes,
        !filter.initialized,
{
}

/// The init callback leaves a filter alone that has been initialized, and otherwise runs
/// `initialize`: the filter counts as initialized and the code is zero exactly if that
/// succeeds.
pub proof fn law_filter_init<I: FnOnce() -> Option<Result<(), Error>>>(
    filter: &mut RawFilter,
    initialize: I,
    rc: i32,
)
    requires
        call_ensures(filter_init_cb::<I>, (filter, initialize), rc),
    ensures
        final(filter).version == old(filter).version,
        final(filter).attributes == old(filter).attributes,
        old(filter).initialized ==> rc == 0 && final(filter).initialized,
        !old(filter).initialized ==> exists|outcome: Option<Result<(), Error>>|
            {
                &&& #[trigger] call_ensures(initialize, (), outcome)
                &&& final(filter).initialized <==> (outcome matches Some(Ok(_)))
                &&& rc == 0 <==> (outcome matches Some(Ok(_)))
                &&& rc == 0 || rc == -1
            },
{
}

/// The init callback can be given an `initialize` that must not be run again.
pub proof fn law_filter_init_asks<I: FnOnce() -> Option<Result<(), Error>>>(
    filter: &mut RawFilter,
    initialize: I,
)
    requires
        !old(filter).initialized ==> call_requires(initialize, ()),
    ensures
        call_requires(filter_init_cb::<I>, (filter, initialize)),
{
}

/// The shutdown callback runs `shutdown`, and the cleanup callback hands `cleanup` the
/// payload, whatever comes of them.
pub proof fn law_filter_ends<
    S: FnOnce() -> Option<()>,
    P,
    C: FnOnce(Option<P>) -> Option<()>,
>(filter: RawFilter, shutdown: S, payload: Option<P>, cleanup: C)
    requires
        call_ensures(filter_shutdown_cb::<S>, (filter, shutdown), ()),
        call_ensures(filter_cleanup_cb::<P, C>, (payload, cleanup), ()),
    ensures
        exists|outcome: Option<()>| call_ensures(shutdown, (), outcome),
        exists|outcome: Option<()>| call_ensures(cleanup, (payload,), outcome),
{
}

/// The shutdown and cleanup callbacks can be given functions that take nothing else.
pub proof fn law_filter_ends_asks<
    S: FnOnce() -> Option<()>,
    P,
    C: FnOnce(Option<P>) -> Option<()>,
>(filter: RawFilter, shutdown: S, payload: Option<P>, cleanup: C)
    requires
        call_requires(shutdown, ()),
        call_requires(cleanup, (payload,)),
    ensures
        call_requires(filter_shutdown_cb::<S>, (filter, shutdown)),
        call_requires(filter_cleanup_cb::<P, C>, (payload, cleanup)),
{
}

/// The filter's answer to `check` becomes: apply it and keep its payload, skip it and keep
/// none, or stop and leave the payload.
pub proof fn law_check_reply<P>(
    outcome: Option<Result<Option<P>, Error>>,
    reply: CheckReply<P>,
)
    requires
        call_ensures(CheckReply::<P>::new, (outcome,), reply),
    ensures
        outcome matches Some(Ok(Some(p))) ==> reply.code == 0 && reply.payload
            == PayloadUpdate::Store(Some(p)),
        outcome matches Some(Ok(None)) ==> reply.code == -30 && reply.payload
            == PayloadUpdate::<P>::Store(None),
        (outcome is None || outcome matches Some(Err(_))) ==> reply.code == -1 && reply.payload
            == PayloadUpdate::<P>::Keep,
{
}

/// The filter's answer to `stream` becomes: its stream, without an error so far, and what
/// it left of the payload; or a failure with neither.
pub proof fn law_stream_reply<P, S>(
    outcome: Option<Result<S, Error>>,
    left: Option<P>,
    reply: StreamReply<P, S>,
)
    requires
        call_ensures(StreamReply::<P, S>::new, (outcome, left), reply),
    ensures
        outcome matches Some(Ok(stream)) ==> {
            &&& reply.code == 0
            &&& reply.payload == left
            &&& reply.stream matches Some((s, state))
            &&& s == stream
            &&& state.last_error is None
        },
        (outcome is None || outcome matches Some(Err(_))) ==> reply.code == -1
            && reply.payload is None && reply.stream is None,
{
}

/// The stream callback lends the filter the source and the payload, and passes on what the
/// filter made of them.
pub proof fn law_filter_stream<
    P,
    S,
    C: FnOnce(&FilterSource, Option<P>) -> (Option<Result<S, Error>>, Option<P>),
>(source: &FilterSource, payload: Option<P>, stream: C, reply: StreamReply<P, S>)
    requires
        call_ensures(filter_stream_cb::<P, S, C>, (source, payload, stream), reply),
    ensures
        exists|outcome: Option<Result<S, Error>>, left: Option<P>|
            {
                &&& #[trigger] call_ensures(stream, (source, payload), (outcome, left))
                &&& outcome matches Some(Ok(made)) ==> {
                    &&& reply.code == 0
                    &&& reply.payload == left
                    &&& reply.stream matches Some((s, state))
                    &&& s == made
                    &&& state.last_error is None
                }
                &&& (outcome is None || outcome matches Some(Err(_))) ==> reply.code == -1
                    && reply.payload is None && reply.stream is None
            },
{
}

/// The stream callback can be given a filter that takes only this source and payload.
pub proof fn law_filter_stream_asks<
    P,
    S,
    C: FnOnce(&FilterSource, Option<P>) -> (Option<Result<S, Error>>, Option<P>),
>(source: &FilterSource, payload: Option<P>, stream: C)
    requires
        call_requires(stream, (source, payload)),
    ensures
        call_requires(filter_stream_cb::<P, S, C>, (source, payload, stream)),
{
}

/// A write by the filter leaves the record alone if it went well; otherwise its error is on
/// record, or the words for a panic, and the code is negative.
pub proof fn law_write_noted(
    stream: &mut RawFilterStream,
    outcome: Option<Result<usize, IoError>>,
    rc: i32,
)
    requires
        call_ensures(RawFilterStream::write_done, (stream, outcome), rc),
    ensures
        outcome matches Some(Ok(_)) ==> rc == 0 && *final(stream) == *old(stream),
        outcome matches Some(Err(e)) ==> rc == -1 && final(stream).last_error == Some(e),
        outcome is None ==> rc == -1 && final(stream).last_error is Some,
        outcome is None ==> final(stream).last_error->0.kind == IoErrorKind::Other
            && final(stream).last_error->0.message@ == "panic in filter"@,
{
}

/// The write callback hands the filter the whole chunk, and notes how that went.
pub proof fn law_filter_stream_write<W: FnOnce(&[u8]) -> Option<Result<usize, IoError>>>(
    stream: &mut RawFilterStream,
    buffer: &[u8],
    write: W,
    rc: i32,
)
    requires
        call_ensures(filter_stream_write_cb::<W>, (stream, buffer, write), rc),
    ensures
        exists|outcome: Option<Result<usize, IoError>>|
            {
                &&& #[trigger] call_ensures(write, (buffer,), outcome)
                &&& outcome matches Some(Ok(_)) ==> rc == 0 && *final(stream) == *old(stream)
                &&& outcome matches Some(Err(e)) ==> rc == -1 && final(stream).last_error == Some(
                    e,
                )
                &&& outcome is None ==> rc == -1 && final(stream).last_error is Some
                &&& outcome is None ==> final(stream).last_error->0.kind == IoErrorKind::Other
                    && final(stream).last_error->0.message@ == "panic in filter"@
            },
{
}

/// The write callback can be given a filter that takes only this chunk.
pub proof fn law_filter_stream_write_asks<
    W: FnOnce(&[u8]) -> Option<Result<usize, IoError>>,
>(stream: &mut RawFilterStream, buffer: &[u8], write: W)
    requires
        call_requires(write, (buffer,)),
    ensures
        call_requires(filter_stream_write_cb::<W>, (stream, buffer, write)),
{
}

/// The next stream is to be closed exactly if the filter closed well, and then nothing is
/// noted; otherwise the message of the filter's error is, or the words for a panic.
pub proof fn law_close_noted(
    stream: &mut RawFilterStream,
    outcome: Option<Result<(), Error>>,
    go_on: bool,
)
    requires
        call_ensures(RawFilterStream::close_done, (stream, outcome), go_on),
    ensures
        go_on <==> (outcome matches Some(Ok(_))),
        go_on ==> *final(stream) == *old(stream),
        !go_on ==> final(stream).last_error is Some && final(stream).last_error->0.kind
            == IoErrorKind::Other,
        outcome matches Some(Err(e)) ==> final(stream).last_error->0.message@ == e.message@,
        outcome is None ==> final(stream).last_error->0.message@ == "panic in filter close"@,
{
}

/// A failure to close the next stream is noted, and a success changes nothing.
pub proof fn law_next_close_noted(
    stream: &mut RawFilterStream,
    closed: Result<(), IoError>,
    rc: i32,
)
    requires
        call_ensures(RawFilterStream::next_closed, (stream, closed), rc),
    ensures
        closed is Ok ==> rc == 0 && *final(stream) == *old(stream),
        closed matches Err(e) ==> rc == -1 && final(stream).last_error == Some(e),
{
}

/// The close callback has the filter close first. If that went well it closes the next
/// stream, and the code is zero exactly if that did not fail. What went wrong is noted.
pub proof fn law_filter_stream_close<
    C: FnOnce() -> Option<Result<(), Error>>,
    N: FnOnce() -> i32,
>(stream: &mut RawFilterStream, close: C, close_next: Option<N>, rc: i32)
    requires
        call_ensures(filter_stream_close_cb::<C, N>, (stream, close, close_next), rc),
    ensures
        rc == 0 || rc == -1,
        rc == 0 ==> *final(stream) == *old(stream),
        rc != 0 ==> final(stream).last_error is Some && final(stream).last_error->0.kind
            == IoErrorKind::Other,
        exists|outcome: Option<Result<(), Error>>|
            {
                &&& #[trigger] call_ensures(close, (), outcome)
                &&& outcome matches Some(Err(e)) ==> rc == -1
                    && final(stream).last_error->0.message@ == e.message@
                &&& outcome is None ==> rc == -1 && final(stream).last_error->0.message@
                    == "panic in filter close"@
                &&& (outcome matches Some(Ok(_))) && close_next is None ==> rc == 0
                &&& (outcome matches Some(Ok(_))) && close_next is Some ==> exists|next_rc: i32|
                    {
                        &&& #[trigger] call_ensures(close_next->0, (), next_rc)
                        &&& rc == 0 <==> next_rc >= 0
                        &&& rc != 0 ==> final(stream).last_error->0.message@
                            == "filter close failed"@
                    }
            },
{
}

/// The close callback can be given a next stream that may be closed only after the filter
/// has closed well.
pub proof fn law_filter_stream_close_asks<
    C: FnOnce() -> Option<Result<(), Error>>,
    N: FnOnce() -> i32,
>(stream: &mut RawFilterStream, close: C, close_next: Option<N>)
    requires
        call_requires(close, ()),
        close_next is Some && (exists|outcome: Option<Result<(), Error>>|
            #[trigger] call_ensures(close, (), outcome) && (outcome matches Some(Ok(_))))
            ==> call_requires(close_next->0, ()),
    ensures
        call_requires(filter_stream_close_cb::<C, N>, (stream, close, close_next)),
{
}

} // verus!
