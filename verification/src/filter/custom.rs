//! Custom filters.
//!
//! libgit2 calls a registered filter through C callbacks. The functions here decide
//! what such a callback does; the work that only the outside can do (to run the
//! filter with its panics caught, to call libgit2) is handed in as a function.
//! A filter's answer is `None` where running it ended in a panic.
use vstd::prelude::*;

use crate::call::Reply;
use crate::cstring::CString;
use crate::error::{Error, ErrorView, IoError, IoErrorView};
use crate::filter::attributes::{attr_values, requested};
use crate::filter::source::FilterSource;
use crate::filter::stream::NextStreamWriter;
use crate::init::InitStep;
use crate::raw::{GIT_ERROR, GIT_FILTER_VERSION, GIT_PASSTHROUGH};

verus! {

/// Where a filter's output goes: the next stream in the chain.
pub trait Downstream {
    /// Writes some of `buf` and tells how much.
    fn write(&mut self, buf: &[u8]) -> Result<usize, IoError>;

    /// Passes on whatever is held back.
    fn flush(&mut self) -> Result<(), IoError>;
}

/// Trait for implementing custom filters.
///
/// The filter registry in libgit2 is not thread-safe. Filters must be registered
/// during application startup, before any concurrent git operations.
pub trait Filter: Send + Sync + Sized + 'static {
    /// What `check` hands to `stream` for one file.
    type Payload: Send + 'static;

    /// The stream that does the filtering of one file.
    type Stream: FilterStream;

    /// Whitespace-separated list of attribute names this filter responds to.
    ///
    /// Returns a string like `"myfilter"` or `"filter1 filter2"` for multiple attributes.
    fn attributes(&self) -> &str;

    /// Called once when the filter is first used.
    ///
    /// Override this to perform one-time initialization.
    fn initialize(&mut self) -> (r: Result<(), Error>)
        default_ensures
            r is Ok,
            *final(self) == *old(self),
    {
        Ok(())
    }

    /// Called when the filter is unregistered.
    ///
    /// Override this to perform cleanup.
    fn shutdown(&mut self)
        default_ensures
            *final(self) == *old(self),
    {
    }

    /// Check if this filter should be applied to the given source.
    ///
    /// Return `Ok(Some(payload))` to apply the filter (payload passed to stream),
    /// `Ok(None)` to skip (passthrough), or `Err` to abort.
    ///
    /// The `attr_values` slice contains the values of the attributes requested
    /// by `attributes()`, in the same order. An attribute without a value is left out.
    fn check(&mut self, source: &FilterSource, attr_values: &[CString]) -> Result<
        Option<Self::Payload>,
        Error,
    >;

    /// Create a streaming filter for the given source.
    ///
    /// The `next` parameter is the downstream write stream. Your filter should
    /// write transformed data to `next`.
    ///
    /// The returned `FilterStream` will receive writes of the input data and
    /// should transform and write to `next`.
    fn stream<N: Downstream>(
        &mut self,
        source: &FilterSource,
        payload: &mut Option<Self::Payload>,
        next: &mut N,
    ) -> Result<Self::Stream, Error>;

    /// Called after filtering is complete to clean up the payload.
    fn cleanup(&mut self, _payload: Option<Self::Payload>)
        default_ensures
            *final(self) == *old(self),
    {
    }
}

/// A streaming filter output.
///
/// This trait represents a write stream that transforms data during filtering.
/// What `write_with_next` does not pass on, `close_with_next` has to.
pub trait FilterStream: Send + Sized + 'static {
    /// Called when all input has been written; flush remaining output to `next`.
    ///
    /// The default implementation does nothing (suitable if you wrote everything
    /// in `write_with_next`).
    fn close_with_next<N: Downstream>(&mut self, _next: &mut N) -> (r: Result<(), Error>)
        default_ensures
            r is Ok,
            *final(self) == *old(self),
            *final(_next) == *old(_next),
    {
        Ok(())
    }

    /// Process input data and write transformed output to `next`.
    ///
    /// This is called for each chunk of input data. Transform the data as needed
    /// and write to `next`.
    fn write_with_next<N: Downstream>(&mut self, buf: &[u8], next: &mut N) -> Result<
        usize,
        IoError,
    >;
}

/// What is kept of a registered filter beside the filter itself.
pub struct RawFilter {
    /// The version of the interface that libgit2 is told.
    pub version: u32,
    /// The attributes that libgit2 is told; it reads them as long as the filter lives.
    pub attributes: CString,
    /// Whether the filter's `initialize` has succeeded.
    pub initialized: bool,
}

/// What is kept of a filter's stream beside the stream itself.
#[derive(Debug)]
pub struct RawFilterStream {
    /// The last I/O error that occurred during filtering, which the return code
    /// cannot carry.
    pub last_error: Option<IoError>,
}

/// A request to register a filter: the name, the priority, and the state to keep for
/// libgit2.
pub struct FilterRegistration {
    pub name: CString,
    pub priority: i32,
    pub filter: RawFilter,
}

impl FilterRegistration {
    /// Whether the request is to register under this name and priority a filter with
    /// these attributes that has not been used yet.
    pub open spec fn asks(self, name: Seq<char>, priority: i32, attributes: Seq<char>) -> bool {
        &&& self.name.is_text(name)
        &&& self.priority == priority
        &&& self.filter.version == GIT_FILTER_VERSION
        &&& self.filter.attributes.is_text(attributes)
        &&& !self.filter.initialized
    }
}

/// What a callback does to the payload that libgit2 keeps for it.
#[derive(Debug)]
pub enum PayloadUpdate<P> {
    /// Leaves it.
    Keep,
    /// Puts this in its place.
    Store(Option<P>),
}

impl<P> PayloadUpdate<P> {
    /// The payload after the update.
    pub open spec fn applied(self, payload: Option<P>) -> Option<P> {
        match self {
            PayloadUpdate::Keep => payload,
            PayloadUpdate::Store(new) => new,
        }
    }
}

/// What the check callback tells libgit2.
#[derive(Debug)]
pub struct CheckReply<P> {
    /// The return code.
    pub code: i32,
    /// What becomes of the payload.
    pub payload: PayloadUpdate<P>,
}

impl<P> CheckReply<P> {
    /// The reply to the answer of the filter's `check`.
    pub open spec fn to_outcome(outcome: Option<Result<Option<P>, Error>>) -> CheckReply<P> {
        match outcome {
            Some(Ok(Some(p))) => CheckReply { code: 0, payload: PayloadUpdate::Store(Some(p)) },
            Some(Ok(None)) => CheckReply {
                code: GIT_PASSTHROUGH,
                payload: PayloadUpdate::Store(None),
            },
            Some(Err(_)) => CheckReply { code: GIT_ERROR, payload: PayloadUpdate::Keep },
            None => CheckReply { code: GIT_ERROR, payload: PayloadUpdate::Keep },
        }
    }

    /// Replies to the answer of the filter's `check`.
    pub fn new(outcome: Option<Result<Option<P>, Error>>) -> (reply: CheckReply<P>)
        ensures
            reply == CheckReply::to_outcome(outcome),
    {
        match outcome {
            // Apply the filter
            Some(Ok(Some(p))) => CheckReply { code: 0, payload: PayloadUpdate::Store(Some(p)) },
            // Skip this filter
            Some(Ok(None)) => CheckReply {
                code: GIT_PASSTHROUGH,
                payload: PayloadUpdate::Store(None),
            },
            Some(Err(_)) => CheckReply { code: GIT_ERROR, payload: PayloadUpdate::Keep },
            None => CheckReply { code: GIT_ERROR, payload: PayloadUpdate::Keep },
        }
    }
}

/// What the stream callback tells libgit2.
#[derive(Debug)]
pub struct StreamReply<P, S> {
    /// The return code.
    pub code: i32,
    /// The payload from now on.
    pub payload: Option<P>,
    /// The stream to write to, with the state to keep for it, if there is one.
    pub stream: Option<(S, RawFilterStream)>,
}

impl<P, S> StreamReply<P, S> {
    /// The reply to the answer of the filter's `stream`, which left `payload` of the
    /// payload that it was lent. A filter that fails has used its payload up.
    pub open spec fn to_outcome(
        outcome: Option<Result<S, Error>>,
        payload: Option<P>,
    ) -> StreamReply<P, S> {
        match outcome {
            Some(Ok(stream)) => StreamReply {
                code: 0,
                payload,
                stream: Some((stream, RawFilterStream { last_error: None })),
            },
            Some(Err(_)) => StreamReply { code: GIT_ERROR, payload: None, stream: None },
            None => StreamReply { code: GIT_ERROR, payload: None, stream: None },
        }
    }

    /// Replies to the answer of the filter's `stream`.
    pub fn new(outcome: Option<Result<S, Error>>, payload: Option<P>) -> (reply: StreamReply<P, S>)
        ensures
            reply == StreamReply::to_outcome(outcome, payload),
    {
        match outcome {
            Some(Ok(stream)) => StreamReply {
                code: 0,
                payload,
                stream: Some((stream, RawFilterStream { last_error: None })),
            },
            Some(Err(_)) => StreamReply { code: GIT_ERROR, payload: None, stream: None },
            None => StreamReply { code: GIT_ERROR, payload: None, stream: None },
        }
    }
}

impl RawFilter {
    /// How many attributes the filter asks for.
    pub open spec fn requested(self) -> nat {
        crate::filter::attributes::name_count(self.attributes@)
    }

    /// The filter before its first use.
    pub fn new(attributes: CString) -> (filter: RawFilter)
        ensures
            filter == (RawFilter { version: GIT_FILTER_VERSION, attributes, initialized: false }),
    {
        RawFilter { version: GIT_FILTER_VERSION, attributes, initialized: false }
    }

    /// Takes note of how the filter's `initialize` went, and gives the callback's return
    /// code.
    pub fn init_done(&mut self, outcome: Option<Result<(), Error>>) -> (rc: i32)
        ensures
            rc == InitStep::code(outcome),
            *final(self) == (RawFilter {
                initialized: old(self).initialized || InitStep::succeeded(outcome),
                ..*old(self)
            }),
    {
        InitStep::take(&mut self.initialized, outcome)
    }
}

/// Whether a stream's error is the one stated.
pub open spec fn error_is(error: Option<IoError>, stated: IoErrorView) -> bool {
    error matches Some(e) && e@ == stated
}

impl RawFilterStream {
    /// Whether `rc` and the stream's state `self` are what a write comes to that the
    /// filter answered with `outcome`, from the state `before`.
    pub open spec fn write_leads(
        self,
        before: RawFilterStream,
        outcome: Option<Result<usize, IoError>>,
        rc: i32,
    ) -> bool {
        match outcome {
            Some(Ok(_)) => rc == 0 && self == before,
            Some(Err(e)) => rc == GIT_ERROR && self.last_error == Some(e),
            None => rc == GIT_ERROR && error_is(
                self.last_error,
                IoErrorView::other("panic in filter"@),
            ),
        }
    }

    /// Takes note of how the filter's `write_with_next` went, and gives the callback's
    /// return code.
    pub fn write_done(&mut self, outcome: Option<Result<usize, IoError>>) -> (rc: i32)
        ensures
            final(self).write_leads(*old(self), outcome, rc),
    {
        match outcome {
            Some(Ok(_)) => 0,
            Some(Err(e)) => {
                self.last_error = Some(e);
                GIT_ERROR
            },
            None => {
                self.last_error = Some(IoError::other("panic in filter"));
                GIT_ERROR
            },
        }
    }

    /// Whether the stream's state `self` is what it comes to that the filter answered
    /// with `outcome` when it was asked to close, from the state `before`.
    pub open spec fn close_leads(
        self,
        before: RawFilterStream,
        outcome: Option<Result<(), Error>>,
    ) -> bool {
        match outcome {
            Some(Ok(_)) => self == before,
            Some(Err(e)) => error_is(self.last_error, IoErrorView::other(e@.message)),
            None => error_is(self.last_error, IoErrorView::other("panic in filter close"@)),
        }
    }

    /// Takes note of how the filter's `close_with_next` went, and tells whether to go on
    /// and close the next stream.
    pub fn close_done(&mut self, outcome: Option<Result<(), Error>>) -> (go_on: bool)
        ensures
            go_on == (outcome matches Some(Ok(_))),
            final(self).close_leads(*old(self), outcome),
    {
        match outcome {
            Some(Ok(())) => true,
            Some(Err(e)) => {
                self.last_error = Some(IoError::other(e.message()));
                false
            },
            None => {
                self.last_error = Some(IoError::other("panic in filter close"));
                false
            },
        }
    }

    /// Whether `rc` and the stream's state `self` are what closing the next stream comes
    /// to, from the state `before`.
    pub open spec fn next_close_leads(
        self,
        before: RawFilterStream,
        closed: Result<(), IoErrorView>,
        rc: i32,
    ) -> bool {
        match closed {
            Ok(_) => rc == 0 && self == before,
            Err(e) => rc == GIT_ERROR && error_is(self.last_error, e),
        }
    }

    /// Takes note of how closing the next stream went, and gives the callback's return
    /// code.
    pub fn next_closed(&mut self, closed: Result<(), IoError>) -> (rc: i32)
        ensures
            match closed {
                Ok(_) => rc == 0 && *final(self) == *old(self),
                Err(e) => rc == GIT_ERROR && final(self).last_error == Some(e),
            },
    {
        match closed {
            Ok(()) => 0,
            Err(e) => {
                self.last_error = Some(e);
                GIT_ERROR
            },
        }
    }
}

/// The init callback: runs the filter's `initialize`, unless it has succeeded before.
pub fn filter_init_cb<I: FnOnce() -> Option<Result<(), Error>>>(
    filter: &mut RawFilter,
    initialize: I,
) -> (rc: i32)
    requires
        !old(filter).initialized ==> call_requires(initialize, ()),
    ensures
        if old(filter).initialized {
            InitStep::leads(true, None, final(filter).initialized, rc) && *final(filter) == *old(filter)
        } else {
            exists|outcome: Option<Result<(), Error>>|
                {
                    &&& #[trigger] call_ensures(initialize, (), outcome)
                    &&& InitStep::leads(false, outcome, final(filter).initialized, rc)
                    &&& *final(filter) == (RawFilter {
                        initialized: InitStep::succeeded(outcome),
                        ..*old(filter)
                    })
                }
        },
{
    if filter.initialized {
        return 0;
    }
    let outcome = initialize();
    filter.init_done(outcome)
}

/// The shutdown callback: runs the filter's `shutdown`, whose panics are dropped, and
/// ends the filter's state.
pub fn filter_shutdown_cb<S: FnOnce() -> Option<()>>(_filter: RawFilter, shutdown: S)
    requires
        call_requires(shutdown, ()),
    ensures
        exists|outcome: Option<()>| call_ensures(shutdown, (), outcome),
{
    let _ = shutdown();
}

/// The check callback: asks the filter whether it wants the file.
///
/// `read` reads the value of the requested attribute at an index out of libgit2's array,
/// if there is one; `check` runs the filter's `check`.
pub fn filter_check_cb<
    P,
    R: Fn(usize) -> Option<CString>,
    C: FnOnce(&FilterSource, &[CString]) -> Option<Result<Option<P>, Error>>,
>(filter: &RawFilter, source: &FilterSource, read: Option<R>, check: C) -> (reply: CheckReply<P>)
    requires
        read matches Some(r) ==> forall|i: usize|
            i < filter.requested() ==> #[trigger] call_requires(r, (i,)),
        forall|values: &[CString]|
            crate::filter::attributes::are_values(read, filter.requested(), values@)
                ==> #[trigger] call_requires(check, (source, values)),
    ensures
        exists|values: &[CString], outcome: Option<Result<Option<P>, Error>>|
            {
                &&& crate::filter::attributes::are_values(read, filter.requested(), values@)
                &&& #[trigger] call_ensures(check, (source, values), outcome)
                &&& reply == CheckReply::to_outcome(outcome)
            },
{
    let values = attr_values(read, requested(&filter.attributes));
    let outcome = check(source, values.as_slice());
    CheckReply::new(outcome)
}

/// The stream callback: has the filter make its stream for the file.
///
/// `payload` is what the filter's `check` gave. `stream` runs the filter's `stream`
/// with the payload and hands back what is left of it.
pub fn filter_stream_cb<
    P,
    S,
    C: FnOnce(&FilterSource, Option<P>) -> (Option<Result<S, Error>>, Option<P>),
>(source: &FilterSource, payload: Option<P>, stream: C) -> (reply: StreamReply<P, S>)
    requires
        call_requires(stream, (source, payload)),
    ensures
        exists|outcome: Option<Result<S, Error>>, left: Option<P>|
            {
                &&& #[trigger] call_ensures(stream, (source, payload), (outcome, left))
                &&& reply == StreamReply::to_outcome(outcome, left)
            },
{
    let (outcome, left) = stream(source, payload);
    StreamReply::new(outcome, left)
}

/// The cleanup callback: hands the payload to the filter's `cleanup`, whose panics are
/// dropped.
pub fn filter_cleanup_cb<P, C: FnOnce(Option<P>) -> Option<()>>(payload: Option<P>, cleanup: C)
    requires
        call_requires(cleanup, (payload,)),
    ensures
        exists|outcome: Option<()>| call_ensures(cleanup, (payload,), outcome),
{
    let _ = cleanup(payload);
}

/// The write callback of a filter's stream: hands the chunk to the filter.
///
/// `write` runs the stream's `write_with_next`.
pub fn filter_stream_write_cb<W: FnOnce(&[u8]) -> Option<Result<usize, IoError>>>(
    stream: &mut RawFilterStream,
    buffer: &[u8],
    write: W,
) -> (rc: i32)
    requires
        call_requires(write, (buffer,)),
    ensures
        exists|outcome: Option<Result<usize, IoError>>|
            {
                &&& #[trigger] call_ensures(write, (buffer,), outcome)
                &&& final(stream).write_leads(*old(stream), outcome, rc)
            },
{
    let outcome = write(buffer);
    stream.write_done(outcome)
}

/// The close callback of a filter's stream: lets the filter flush what is left to the
/// next stream, and then, if that went well, closes the next stream in the chain.
///
/// `close` runs the stream's `close_with_next`; `close_next` is the next stream's close
/// callback, if it has one.
pub fn filter_stream_close_cb<
    C: FnOnce() -> Option<Result<(), Error>>,
    N: FnOnce() -> i32,
>(stream: &mut RawFilterStream, close: C, close_next: Option<N>) -> (rc: i32)
    requires
        call_requires(close, ()),
        forall|outcome: Option<Result<(), Error>>| #[trigger]
            call_ensures(close, (), outcome) && (outcome matches Some(Ok(_))) && close_next is Some
                ==> call_requires(close_next->0, ()),
    ensures
        exists|outcome: Option<Result<(), Error>>|
            {
                &&& #[trigger] call_ensures(close, (), outcome)
                &&& match outcome {
                    Some(Ok(_)) => match close_next {
                        Some(f) => exists|next_rc: i32|
                            {
                                &&& #[trigger] call_ensures(f, (), next_rc)
                                &&& final(stream).next_close_leads(
                                    *old(stream),
                                    NextStreamWriter::close_result(Some(next_rc)),
                                    rc,
                                )
                            },
                        None => final(stream).next_close_leads(
                            *old(stream),
                            NextStreamWriter::close_result(None),
                            rc,
                        ),
                    },
                    _ => rc == GIT_ERROR && final(stream).close_leads(*old(stream), outcome),
                }
            },
{
    // First, let our filter flush any remaining data to next
    let outcome = close();
    if !stream.close_done(outcome) {
        return GIT_ERROR;
    }
    // Then close the next stream in the chain
    let closed = NextStreamWriter::close(close_next);
    stream.next_closed(closed)
}

/// Register a custom filter.
///
/// `register` makes the registration last from libgit2's side (`git_filter_register`).
/// What it gives back with a success is handed on, for libgit2 now depends on it; with a
/// failure it is dropped.
///
/// # Arguments
/// * `name` - Name to register the filter under (e.g., "myfilter")
/// * `filter` - The filter implementation
/// * `priority` - Filter priority (use constants from `filter_priority` module)
pub fn register_filter<F: Filter, R, C: FnOnce(FilterRegistration, F) -> Reply<R>>(
    name: &str,
    filter: F,
    priority: i32,
    register: C,
) -> (r: Result<R, Error>)
    requires
        forall|request: FilterRegistration, attributes: &str|
            #![trigger call_requires(register, (request, filter)), attributes@]
            call_ensures(F::attributes, (&filter,), attributes) && request.asks(
                name@,
                priority,
                attributes@,
            ) ==> call_requires(register, (request, filter)),
    ensures
        if CString::fits(CString::encoded(name@)) {
            exists|attributes: &str|
                {
                    &&& #[trigger] call_ensures(F::attributes, (&filter,), attributes)
                    &&& if CString::fits(CString::encoded(attributes@)) {
                        exists|request: FilterRegistration, reply: Reply<R>|
                            {
                                &&& request.asks(name@, priority, attributes@)
                                &&& #[trigger] call_ensures(register, (request, filter), reply)
                                &&& reply.gives(r)
                            }
                    } else {
                        r matches Err(e) && e@ == ErrorView::nul()
                    }
                }
        } else {
            r matches Err(e) && e@ == ErrorView::nul()
        },
{
    let name = match CString::from_bytes(name.as_bytes()) {
        Ok(name) => name,
        Err(e) => return Err(e),
    };
    let attributes = match CString::from_bytes(filter.attributes().as_bytes()) {
        Ok(attributes) => attributes,
        Err(e) => return Err(e),
    };
    let request = FilterRegistration { name, priority, filter: RawFilter::new(attributes) };
    let reply = register(request, filter);
    reply.check()
}

/// Unregister a custom filter.
///
/// `unregister` asks libgit2 to forget the name (`git_filter_unregister`).
pub fn unregister_filter<C: FnOnce(CString) -> Reply<()>>(name: &str, unregister: C) -> (r: Result<
    (),
    Error,
>)
    requires
        forall|asked: CString| asked.is_text(name@) ==> #[trigger] call_requires(unregister, (asked,)),
    ensures
        if CString::fits(CString::encoded(name@)) {
            exists|asked: CString, reply: Reply<()>|
                {
                    &&& asked.is_text(name@)
                    &&& #[trigger] call_ensures(unregister, (asked,), reply)
                    &&& reply.gives(r)
                }
        } else {
            r matches Err(e) && e@ == ErrorView::nul()
        },
{
    let name = match CString::from_bytes(name.as_bytes()) {
        Ok(name) => name,
        Err(e) => return Err(e),
    };
    let reply = unregister(name);
    reply.check()
}

/// Look up a registered filter by name.
///
/// Returns `true` if a filter with the given name is registered, `false` otherwise.
/// `lookup` gives the address that libgit2 has for the name (`git_filter_lookup`), zero
/// if none.
pub fn lookup_filter<C: FnOnce(CString) -> usize>(name: &str, lookup: C) -> (found: bool)
    requires
        forall|asked: CString| asked.is_text(name@) ==> #[trigger] call_requires(lookup, (asked,)),
    ensures
        if CString::fits(CString::encoded(name@)) {
            exists|asked: CString, address: usize|
                {
                    &&& asked.is_text(name@)
                    &&& #[trigger] call_ensures(lookup, (asked,), address)
                    &&& found == (address != 0)
                }
        } else {
            !found
        },
{
    match CString::new(name.as_bytes()) {
        Ok(name) => {
            let address: usize = lookup(name);
            address != 0
        },
        Err(_) => false,
    }
}

/// The filter is applied exactly if its `check` gives a payload, and that payload is
/// the one kept for `stream`. It is skipped exactly if `check` gives none, and then no
/// payload is kept. Otherwise filtering stops, and the payload stays what it was.
pub proof fn law_check_decides<P>(outcome: Option<Result<Option<P>, Error>>, before: Option<P>)
    ensures
        ({
            let reply = CheckReply::to_outcome(outcome);
            let kept = reply.payload.applied(before);
            &&& reply.code == 0 <==> (outcome matches Some(Ok(Some(_))))
            &&& reply.code == GIT_PASSTHROUGH <==> (outcome matches Some(Ok(None)))
            &&& reply.code == 0 || reply.code == GIT_PASSTHROUGH || reply.code == GIT_ERROR
            &&& reply.code == 0 ==> outcome == Some(Ok::<Option<P>, Error>(kept)) && kept is Some
            &&& reply.code == GIT_PASSTHROUGH ==> kept is None
            &&& reply.code == GIT_ERROR ==> kept == before
        }),
{
}

/// libgit2 gets a stream exactly if the stream callback succeeds. What `stream` leaves
/// of the payload is then what `cleanup` gets, and the stream starts without an error. If
/// it fails, there is no payload left.
pub proof fn law_stream_hands_on<P, S>(outcome: Option<Result<S, Error>>, left: Option<P>)
    ensures
        ({
            let reply = StreamReply::to_outcome(outcome, left);
            &&& reply.code == 0 <==> reply.stream is Some
            &&& reply.code == 0 <==> (outcome matches Some(Ok(_)))
            &&& reply.code == 0 || reply.code == GIT_ERROR
            &&& reply.code == 0 ==> reply.payload == left
            &&& reply.code != 0 ==> reply.payload is None
            &&& reply.stream matches Some((stream, state)) ==> {
                &&& outcome == Some(Ok::<S, Error>(stream))
                &&& state.last_error is None
            }
        }),
{
}

/// The error behind a failed write is on record, and no later write takes it off: in a
/// run of writes, from `states[i]` to `states[i + 1]` with the return code `codes[i]`, an
/// error is on record at the end if one was at the start or some write failed.
pub proof fn law_write_errors_kept(
    states: Seq<RawFilterStream>,
    outcomes: Seq<Option<Result<usize, IoError>>>,
    codes: Seq<i32>,
)
    requires
        states.len() == outcomes.len() + 1,
        codes.len() == outcomes.len(),
        forall|i: int|
            #![trigger outcomes[i]]
            0 <= i < outcomes.len() ==> states[i + 1].write_leads(
                states[i],
                outcomes[i],
                codes[i],
            ),
    ensures
        states.last().last_error is Some <==> {
            ||| states[0].last_error is Some
            ||| exists|i: int| 0 <= i < codes.len() && #[trigger] codes[i] < 0
        },
    decreases outcomes.len(),
{
    if outcomes.len() > 0 {
        let n = outcomes.len() - 1;
        let earlier = codes.drop_last();
        law_write_errors_kept(states.drop_last(), outcomes.drop_last(), earlier);
        assert(states.drop_last().last() == states[n]);
        assert(states.last() == states[n + 1]);
        assert(outcomes[n] == outcomes.last());
        assert(states[n + 1].write_leads(states[n], outcomes[n], codes[n]));
        assert(forall|i: int| 0 <= i < earlier.len() ==> earlier[i] == codes[i]);
        if exists|i: int| 0 <= i < earlier.len() && #[trigger] earlier[i] < 0 {
            let i = choose|i: int| 0 <= i < earlier.len() && #[trigger] earlier[i] < 0;
            assert(codes[i] < 0);
        }
        if exists|i: int| 0 <= i < codes.len() && #[trigger] codes[i] < 0 {
            let i = choose|i: int| 0 <= i < codes.len() && #[trigger] codes[i] < 0;
            if i < n {
                assert(earlier[i] < 0);
            }
        }
    }
}

/// When a filter's stream is closed, a failure leaves its error on record and a success
/// changes nothing.
pub proof fn law_close_records_error(
    before: RawFilterStream,
    after: RawFilterStream,
    outcome: Option<Result<(), Error>>,
    next_rc: Option<i32>,
    rc: i32,
)
    requires
        match outcome {
            Some(Ok(_)) => after.next_close_leads(
                before,
                NextStreamWriter::close_result(next_rc),
                rc,
            ),
            _ => rc == GIT_ERROR && after.close_leads(before, outcome),
        },
    ensures
        rc == 0 || rc == GIT_ERROR,
        rc == 0 ==> after == before,
        rc == GIT_ERROR ==> after.last_error is Some,
        rc == 0 <==> (outcome matches Some(Ok(_)) && !(next_rc matches Some(n) && n < 0)),
{
}

} // verus!
