//! The streams that filtered data goes through.
use vstd::prelude::*;

use crate::error::{IoError, IoErrorKind};
use crate::filter::stream::{NextStreamWriter, WriteStreamAdapter, WriteStreamCollector};

verus! {

/// A collector starts empty, adds every chunk behind what it has, loses nothing when it is
/// closed, and gives out what it has. It never fails.
pub proof fn law_collector(
    fresh: WriteStreamCollector,
    collector: &mut WriteStreamCollector,
    chunk: &[u8],
    rc: i32,
    closing: &mut WriteStreamCollector,
    close_rc: i32,
    full: WriteStreamCollector,
    data: Vec<u8>,
)
    requires
        call_ensures(WriteStreamCollector::new, (), fresh),
        call_ensures(WriteStreamCollector::write_callback, (collector, chunk), rc),
        call_ensures(WriteStreamCollector::close_callback, (closing,), close_rc),
        call_ensures(WriteStreamCollector::into_data, (full,), data),
    ensures
        fresh@.len() == 0,
        rc == 0,
        final(collector)@ == old(collector)@ + chunk@,
        close_rc == 0,
        final(closing)@ == old(closing)@,
        data@ == full@,
{
}

/// An adapter starts without an error and ends with the one it keeps. After an answer of
/// the writer it keeps the answer's error, or what it kept before if there is none; the
/// callback fails exactly if the writer did.
pub proof fn law_adapter(
    fresh: WriteStreamAdapter,
    adapter: &mut WriteStreamAdapter,
    answer: Result<(), IoError>,
    rc: i32,
    done: WriteStreamAdapter,
    end: Result<(), IoError>,
)
    requires
        call_ensures(WriteStreamAdapter::new, (), fresh),
        call_ensures(WriteStreamAdapter::answered, (adapter, answer), rc),
        call_ensures(WriteStreamAdapter::finish, (done,), end),
    ensures
        fresh@ is None,
        answer is Ok ==> rc == 0 && final(adapter)@ == old(adapter)@,
        answer matches Err(e) ==> rc == -1 && final(adapter)@ == Some(e),
        end is Ok <==> done@ is None,
        end matches Err(e) ==> done@ == Some(e),
{
}

/// The write callback hands the writer the whole chunk, and its answer decides.
pub proof fn law_adapter_writes<W: FnOnce(&[u8]) -> Result<(), IoError>>(
    adapter: &mut WriteStreamAdapter,
    chunk: &[u8],
    write_all: W,
    rc: i32,
)
    requires
        call_ensures(WriteStreamAdapter::write_callback::<W>, (adapter, chunk, write_all), rc),
    ensures
        exists|answer: Result<(), IoError>|
            {
                &&& #[trigger] call_ensures(write_all, (chunk,), answer)
                &&& answer is Ok ==> rc == 0 && final(adapter)@ == old(adapter)@
                &&& answer matches Err(e) ==> rc == -1 && final(adapter)@ == Some(e)
            },
{
}

/// The close callback has the writer flush, and its answer decides.
pub proof fn law_adapter_closes<F: FnOnce() -> Result<(), IoError>>(
    adapter: &mut WriteStreamAdapter,
    flush: F,
    rc: i32,
)
    requires
        call_ensures(WriteStreamAdapter::close_callback::<F>, (adapter, flush), rc),
    ensures
        exists|answer: Result<(), IoError>|
            {
                &&& #[trigger] call_ensures(flush, (), answer)
                &&& answer is Ok ==> rc == 0 && final(adapter)@ == old(adapter)@
                &&& answer matches Err(e) ==> rc == -1 && final(adapter)@ == Some(e)
            },
{
}

/// The callbacks can be given functions that take this chunk only, or nothing.
pub proof fn law_adapter_asks<
    W: FnOnce(&[u8]) -> Result<(), IoError>,
    F: FnOnce() -> Result<(), IoError>,
>(adapter: &mut WriteStreamAdapter, chunk: &[u8], write_all: W, flush: F)
    requires
        call_requires(write_all, (chunk,)),
        call_requires(flush, ()),
    ensures
        call_requires(WriteStreamAdapter::write_callback::<W>, (adapter, chunk, write_all)),
        call_requires(WriteStreamAdapter::close_callback::<F>, (adapter, flush)),
{
}

/// A write counts in full exactly if the stream has a write callback that does not fail;
/// the two failures are told apart.
pub proof fn law_next_written(len: usize, rc: Option<i32>, r: Result<usize, IoError>)
    requires
        call_ensures(NextStreamWriter::written, (len, rc), r),
    ensures
        r is Ok <==> (rc matches Some(n) && n >= 0),
        r matches Ok(n) ==> n == len,
        r matches Err(e) ==> e.kind == IoErrorKind::Other,
        r matches Err(e) ==> rc is Some ==> e.message@ == "filter write failed"@,
        r matches Err(e) ==> rc is None ==> e.message@ == "no write function on stream"@,
{
}

/// A close fails exactly if the stream has a close callback that fails.
pub proof fn law_next_closed(rc: Option<i32>, r: Result<(), IoError>)
    requires
        call_ensures(NextStreamWriter::closed, (rc,), r),
    ensures
        r is Err <==> (rc matches Some(n) && n < 0),
        r matches Err(e) ==> e.kind == IoErrorKind::Other,
        r matches Err(e) ==> e.message@ == "filter close failed"@,
{
}

/// The next stream is handed exactly what is to be written; what comes of it is as the
/// return code says. There is never anything to flush.
pub proof fn law_next_stream_writes<W: FnOnce(&[u8]) -> i32>(
    buf: &[u8],
    write_fn: Option<W>,
    r: Result<usize, IoError>,
    flushed: Result<(), IoError>,
)
    requires
        call_ensures(NextStreamWriter::write::<W>, (buf, write_fn), r),
        call_ensures(NextStreamWriter::flush, (), flushed),
    ensures
        flushed is Ok,
        r matches Ok(n) ==> n == buf@.len(),
        r matches Err(e) ==> e.kind == IoErrorKind::Other,
        write_fn is None ==> (r matches Err(e) && e.message@ == "no write function on stream"@),
        write_fn matches Some(f) ==> exists|rc: i32|
            {
                &&& #[trigger] call_ensures(f, (buf,), rc)
                &&& r is Ok <==> rc >= 0
                &&& r matches Err(e) ==> e.message@ == "filter write failed"@
            },
{
    assert(buf@.len() == buf.len());
}

/// The next stream is closed through its close callback, if it has one.
pub proof fn law_next_stream_closes<C: FnOnce() -> i32>(
    close_fn: Option<C>,
    r: Result<(), IoError>,
)
    requires
        call_ensures(NextStreamWriter::close::<C>, (close_fn,), r),
    ensures
        close_fn is None ==> r is Ok,
        close_fn matches Some(f) ==> exists|rc: i32|
            {
                &&& #[trigger] call_ensures(f, (), rc)
                &&& r is Ok <==> rc >= 0
                &&& r matches Err(e) ==> e.kind == IoErrorKind::Other && e.message@
                    == "filter close failed"@
            },
{
}

/// The next stream can be given callbacks that take this data only, or nothing.
pub proof fn law_next_stream_asks<W: FnOnce(&[u8]) -> i32, C: FnOnce() -> i32>(
    buf: &[u8],
    write_fn: Option<W>,
    close_fn: Option<C>,
)
    requires
        write_fn matches Some(f) ==> call_requires(f, (buf,)),
        close_fn matches Some(f) ==> call_requires(f, ()),
    ensures
        call_requires(NextStreamWriter::write::<W>, (buf, write_fn)),
        call_requires(NextStreamWriter::close::<C>, (close_fn,)),
{
}

} // verus!
