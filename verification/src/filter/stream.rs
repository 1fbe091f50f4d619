//! The streams that filtered data goes through.
use vstd::prelude::*;

use crate::error::{IoError, IoErrorView};
use crate::raw::GIT_ERROR;

verus! {

/// Collects filtered data into a Vec. The view is what has come so far.
#[derive(Debug)]
pub struct WriteStreamCollector {
    data: Vec<u8>,
}

impl View for WriteStreamCollector {
    type V = Seq<u8>;

    closed spec fn view(&self) -> Seq<u8> {
        self.data@
    }
}

impl WriteStreamCollector {
    /// A collector that nothing has come to.
    pub fn new() -> (collector: WriteStreamCollector)
        ensures
            collector@ == Seq::<u8>::empty(),
    {
        WriteStreamCollector { data: Vec::new() }
    }

    /// The stream's write callback: takes the chunk and never fails.
    pub fn write_callback(&mut self, buffer: &[u8]) -> (rc: i32)
        ensures
            rc == 0,
            final(self)@ == WriteStreamCollector::after_chunk(old(self)@, buffer@),
    {
        self.data.extend_from_slice(buffer);
        assert(self.data@ =~= old(self).data@ + buffer@);
        0
    }

    /// The stream's close callback: there is nothing to finish.
    pub fn close_callback(&mut self) -> (rc: i32)
        ensures
            rc == 0,
            *final(self) == *old(self),
    {
        0
    }

    /// What has been collected.
    pub fn into_data(self) -> (data: Vec<u8>)
        ensures
            data@ == self@,
    {
        self.data
    }

    /// What a collector with `data` in it holds after this chunk.
    pub open spec fn after_chunk(data: Seq<u8>, chunk: Seq<u8>) -> Seq<u8> {
        data + chunk
    }

    /// What a collector with `data` in it holds after these chunks.
    pub open spec fn after_chunks(data: Seq<u8>, chunks: Seq<Seq<u8>>) -> Seq<u8>
        decreases chunks.len(),
    {
        if chunks.len() == 0 {
            data
        } else {
            WriteStreamCollector::after_chunk(
                WriteStreamCollector::after_chunks(data, chunks.drop_last()),
                chunks.last(),
            )
        }
    }
}

/// A collector ends up with all chunks in the order in which they came, whatever the
/// cuts between them.
pub proof fn law_collector_concatenates(data: Seq<u8>, chunks: Seq<Seq<u8>>)
    ensures
        WriteStreamCollector::after_chunks(data, chunks) == data + chunks.flatten(),
    decreases chunks.len(),
{
    if chunks.len() == 0 {
        assert(chunks =~= Seq::<Seq<u8>>::empty());
        assert(chunks.flatten() =~= Seq::<u8>::empty());
        assert(data + chunks.flatten() =~= data);
    } else {
        law_collector_concatenates(data, chunks.drop_last());
        chunks.lemma_flatten_and_flatten_alt_are_equivalent();
        chunks.drop_last().lemma_flatten_and_flatten_alt_are_equivalent();
        assert(data + chunks.drop_last().flatten() + chunks.last() =~= data + (
        chunks.drop_last().flatten() + chunks.last()));
    }
}

/// Adapter for writing filtered data to a writer: what is kept beside the writer.
#[derive(Debug)]
pub struct WriteStreamAdapter {
    error: Option<IoError>,
}

impl View for WriteStreamAdapter {
    type V = Option<IoError>;

    closed spec fn view(&self) -> Option<IoError> {
        self.error
    }
}

impl WriteStreamAdapter {
    /// An adapter whose writer has not failed.
    pub fn new() -> (adapter: WriteStreamAdapter)
        ensures
            adapter@ is None,
    {
        WriteStreamAdapter { error: None }
    }

    /// The error kept after the writer has answered.
    pub open spec fn after_answer(
        error: Option<IoError>,
        answer: Result<(), IoError>,
    ) -> Option<IoError> {
        match answer {
            Ok(_) => error,
            Err(e) => Some(e),
        }
    }

    /// The error kept after the writer has answered several times.
    pub open spec fn after_answers(answers: Seq<Result<(), IoError>>) -> Option<IoError>
        decreases answers.len(),
    {
        if answers.len() == 0 {
            None
        } else {
            WriteStreamAdapter::after_answer(
                WriteStreamAdapter::after_answers(answers.drop_last()),
                answers.last(),
            )
        }
    }

    /// Whether the callback leads from `before` to `after` with the return code `rc`, given
    /// the writer's answer.
    pub open spec fn leads(
        before: Option<IoError>,
        answer: Result<(), IoError>,
        after: Option<IoError>,
        rc: i32,
    ) -> bool {
        &&& rc == (if answer is Ok { 0i32 } else { GIT_ERROR })
        &&& after == WriteStreamAdapter::after_answer(before, answer)
    }

    /// Whether the write callback leads from `before` to `after` with the return code `rc`:
    /// it hands the whole chunk to `write_all`.
    pub open spec fn write_leads<W: FnOnce(&[u8]) -> Result<(), IoError>>(
        write_all: W,
        before: Option<IoError>,
        chunk: &[u8],
        after: Option<IoError>,
        rc: i32,
    ) -> bool {
        exists|answer: Result<(), IoError>|
            {
                &&& #[trigger] call_ensures(write_all, (chunk,), answer)
                &&& WriteStreamAdapter::leads(before, answer, after, rc)
            }
    }

    /// Whether the close callback leads from `before` to `after` with the return code `rc`:
    /// it has the writer flush.
    pub open spec fn close_leads<F: FnOnce() -> Result<(), IoError>>(
        flush: F,
        before: Option<IoError>,
        after: Option<IoError>,
        rc: i32,
    ) -> bool {
        exists|answer: Result<(), IoError>|
            {
                &&& #[trigger] call_ensures(flush, (), answer)
                &&& WriteStreamAdapter::leads(before, answer, after, rc)
            }
    }

    /// Takes note of the writer's answer and gives the callback's return code.
    pub fn answered(&mut self, answer: Result<(), IoError>) -> (rc: i32)
        ensures
            WriteStreamAdapter::leads(old(self)@, answer, final(self)@, rc),
    {
        match answer {
            Ok(()) => 0,
            Err(e) => {
                self.error = Some(e);
                GIT_ERROR
            },
        }
    }

    /// The stream's write callback: has the writer write the whole chunk.
    pub fn write_callback<W: FnOnce(&[u8]) -> Result<(), IoError>>(
        &mut self,
        buffer: &[u8],
        write_all: W,
    ) -> (rc: i32)
        requires
            call_requires(write_all, (buffer,)),
        ensures
            WriteStreamAdapter::write_leads(write_all, old(self)@, buffer, final(self)@, rc),
    {
        let answer = write_all(buffer);
        self.answered(answer)
    }

    /// The stream's close callback: has the writer flush.
    pub fn close_callback<F: FnOnce() -> Result<(), IoError>>(&mut self, flush: F) -> (rc: i32)
        requires
            call_requires(flush, ()),
        ensures
            WriteStreamAdapter::close_leads(flush, old(self)@, final(self)@, rc),
    {
        let answer = flush();
        self.answered(answer)
    }

    /// How the stream ended: with the writer's latest error, if it had any.
    pub fn finish(self) -> (r: Result<(), IoError>)
        ensures
            r == (match self@ {
                Some(e) => Err::<(), IoError>(e),
                None => Ok::<(), IoError>(()),
            }),
    {
        match self.error {
            Some(e) => Err(e),
            None => Ok(()),
        }
    }
}

/// An adapter keeps an error exactly if the writer failed, and keeps the latest one.
pub proof fn law_adapter_keeps_latest_error(answers: Seq<Result<(), IoError>>)
    ensures
        match WriteStreamAdapter::after_answers(answers) {
            Some(e) => exists|i: int|
                {
                    &&& 0 <= i < answers.len()
                    &&& #[trigger] answers[i] == Err::<(), IoError>(e)
                    &&& forall|j: int| i < j < answers.len() ==> answers[j] is Ok
                },
            None => forall|i: int| 0 <= i < answers.len() ==> answers[i] is Ok,
        },
    decreases answers.len(),
{
    if answers.len() > 0 {
        let earlier = answers.drop_last();
        law_adapter_keeps_latest_error(earlier);
        match answers.last() {
            Ok(_) => {
                assert(forall|i: int| 0 <= i < earlier.len() ==> answers[i] == earlier[i]);
                if let Some(e) = WriteStreamAdapter::after_answers(earlier) {
                    let i = choose|i: int|
                        {
                            &&& 0 <= i < earlier.len()
                            &&& #[trigger] earlier[i] == Err::<(), IoError>(e)
                            &&& forall|j: int| i < j < earlier.len() ==> earlier[j] is Ok
                        };
                    assert(answers[i] == Err::<(), IoError>(e));
                }
            },
            Err(e) => {
                assert(answers[answers.len() - 1] == Err::<(), IoError>(e));
            },
        }
    }
}

/// What the chunks hold.
pub open spec fn contents(chunks: Seq<&[u8]>) -> Seq<Seq<u8>> {
    chunks.map_values(|chunk: &[u8]| chunk@)
}

/// Whether a run of chunks goes through the adapter: `errors[k]` and `errors[k + 1]` are
/// the errors kept before and after chunk `k`, which is handed to `writes[k]`, and
/// `codes[k]` is what the callback returns.
pub open spec fn is_run<W: FnOnce(&[u8]) -> Result<(), IoError>>(
    writes: Seq<W>,
    chunks: Seq<&[u8]>,
    errors: Seq<Option<IoError>>,
    codes: Seq<i32>,
) -> bool {
    &&& writes.len() == chunks.len()
    &&& codes.len() == chunks.len()
    &&& errors.len() == chunks.len() + 1
    &&& forall|k: int|
        #![trigger chunks[k]]
        0 <= k < chunks.len() ==> WriteStreamAdapter::write_leads(
            writes[k],
            errors[k],
            chunks[k],
            errors[k + 1],
            codes[k],
        )
}

/// Whether a successful `writes[k]` takes the writer from having got `got[k]` to having got
/// `got[k + 1]`: all that it was handed is added.
pub open spec fn take_all<W: FnOnce(&[u8]) -> Result<(), IoError>>(
    writes: Seq<W>,
    got: Seq<Seq<u8>>,
) -> bool {
    &&& got.len() == writes.len() + 1
    &&& forall|k: int, bytes: &[u8], answer: Result<(), IoError>|
        #![trigger call_ensures(writes[k], (bytes,), answer)]
        0 <= k < writes.len() && call_ensures(writes[k], (bytes,), answer) && answer is Ok
            ==> got[k + 1] == got[k] + bytes@
}

/// A writer gets, over a run of chunks that it takes without a failure, the same bytes that
/// a collector gets: all chunks in the order in which they came, after what it had got
/// before. And no error is put on record.
pub proof fn law_writer_gets_every_chunk<W: FnOnce(&[u8]) -> Result<(), IoError>>(
    writes: Seq<W>,
    chunks: Seq<&[u8]>,
    errors: Seq<Option<IoError>>,
    codes: Seq<i32>,
    got: Seq<Seq<u8>>,
)
    requires
        is_run(writes, chunks, errors, codes),
        take_all(writes, got),
        forall|k: int| 0 <= k < codes.len() ==> #[trigger] codes[k] == 0,
    ensures
        got.last() == WriteStreamCollector::after_chunks(got[0], contents(chunks)),
        got.last() == got[0] + contents(chunks).flatten(),
        errors.last() == errors[0],
    decreases chunks.len(),
{
    law_collector_concatenates(got[0], contents(chunks));
    if chunks.len() > 0 {
        let n = chunks.len() - 1;
        let earlier = chunks.drop_last();
        assert(is_run(writes.drop_last(), earlier, errors.drop_last(), codes.drop_last())) by {
            assert forall|k: int|
                #![trigger earlier[k]]
                0 <= k < earlier.len() implies WriteStreamAdapter::write_leads(
                writes.drop_last()[k],
                errors.drop_last()[k],
                earlier[k],
                errors.drop_last()[k + 1],
                codes.drop_last()[k],
            ) by {
                assert(earlier[k] == chunks[k]);
            }
        }
        assert(take_all(writes.drop_last(), got.drop_last())) by {
            assert forall|k: int, bytes: &[u8], answer: Result<(), IoError>|
                #![trigger call_ensures(writes.drop_last()[k], (bytes,), answer)]
                0 <= k < writes.len() - 1 && call_ensures(
                    writes.drop_last()[k],
                    (bytes,),
                    answer,
                ) && answer is Ok implies got.drop_last()[k + 1] == got.drop_last()[k]
                + bytes@ by {
                assert(call_ensures(writes[k], (bytes,), answer));
            }
        }
        law_writer_gets_every_chunk(
            writes.drop_last(),
            earlier,
            errors.drop_last(),
            codes.drop_last(),
            got.drop_last(),
        );
        assert(contents(chunks).drop_last() =~= contents(earlier));
        assert(contents(chunks).last() == chunks[n]@);
        assert(WriteStreamAdapter::write_leads(
            writes[n],
            errors[n],
            chunks[n],
            errors[n + 1],
            codes[n],
        ));
        assert(codes[n] == 0);
        assert(got[n + 1] == got[n] + chunks[n]@);
    }
}

/// The next stream in the filter chain, as far as what its callbacks' return codes
/// mean. A stream may be without a callback.
pub struct NextStreamWriter {}

impl NextStreamWriter {
    /// What comes of a write of `len` bytes, given the write callback's return code.
    pub open spec fn write_result(len: usize, rc: Option<i32>) -> Result<usize, IoErrorView> {
        match rc {
            Some(rc) => if rc < 0 {
                Err(IoErrorView::other("filter write failed"@))
            } else {
                Ok(len)
            },
            None => Err(IoErrorView::other("no write function on stream"@)),
        }
    }

    /// What comes of closing the stream, given the close callback's return code.
    pub open spec fn close_result(rc: Option<i32>) -> Result<(), IoErrorView> {
        match rc {
            Some(rc) => if rc < 0 {
                Err(IoErrorView::other("filter close failed"@))
            } else {
                Ok(())
            },
            None => Ok(()),
        }
    }

    /// What comes of a write of `len` bytes, given the write callback's return code.
    pub fn written(len: usize, rc: Option<i32>) -> (r: Result<usize, IoError>)
        ensures
            IoError::same(r, NextStreamWriter::write_result(len, rc)),
    {
        match rc {
            Some(rc) => {
                if rc < 0 {
                    Err(IoError::other("filter write failed"))
                } else {
                    Ok(len)
                }
            },
            None => Err(IoError::other("no write function on stream")),
        }
    }

    /// What comes of closing the stream, given the close callback's return code.
    pub fn closed(rc: Option<i32>) -> (r: Result<(), IoError>)
        ensures
            IoError::same(r, NextStreamWriter::close_result(rc)),
    {
        match rc {
            Some(rc) => {
                if rc < 0 {
                    Err(IoError::other("filter close failed"))
                } else {
                    Ok(())
                }
            },
            None => Ok(()),
        }
    }

    /// Write `buf` to the stream through its write callback.
    pub fn write<W: FnOnce(&[u8]) -> i32>(buf: &[u8], write_fn: Option<W>) -> (r: Result<
        usize,
        IoError,
    >)
        requires
            write_fn matches Some(f) ==> call_requires(f, (buf,)),
        ensures
            match write_fn {
                Some(f) => exists|rc: i32|
                    {
                        &&& #[trigger] call_ensures(f, (buf,), rc)
                        &&& IoError::same(
                            r,
                            NextStreamWriter::write_result(buf@.len() as usize, Some(rc)),
                        )
                    },
                None => IoError::same(
                    r,
                    NextStreamWriter::write_result(buf@.len() as usize, None),
                ),
            },
    {
        let rc: Option<i32> = match write_fn {
            Some(f) => Some(f(buf)),
            None => None,
        };
        NextStreamWriter::written(buf.len(), rc)
    }

    /// Close the underlying stream through its close callback.
    pub fn close<C: FnOnce() -> i32>(close_fn: Option<C>) -> (r: Result<(), IoError>)
        requires
            close_fn matches Some(f) ==> call_requires(f, ()),
        ensures
            match close_fn {
                Some(f) => exists|rc: i32|
                    {
                        &&& #[trigger] call_ensures(f, (), rc)
                        &&& IoError::same(r, NextStreamWriter::close_result(Some(rc)))
                    },
                None => IoError::same(r, NextStreamWriter::close_result(None)),
            },
    {
        let rc: Option<i32> = match close_fn {
            Some(f) => Some(f()),
            None => None,
        };
        NextStreamWriter::closed(rc)
    }

    /// Nothing is held back, so there is nothing to flush.
    pub fn flush() -> (r: Result<(), IoError>)
        ensures
            r is Ok,
    {
        Ok(())
    }
}

} // verus!
