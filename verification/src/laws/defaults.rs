//! What filters and merge drivers do that override nothing.
use vstd::prelude::*;

use crate::cstring::CString;
use crate::error::{Error, IoError};
use crate::filter::custom::{Downstream, Filter, FilterStream};
use crate::filter::source::FilterSource;
use crate::merge_driver::{MergeDriver, MergeDriverApplyResult, MergeDriverSource};

verus! {

/// A filter, its stream and a merge driver with nothing overridden: the filter wants no
/// file, the stream drops what it gets, and the driver leaves the merge to the default one.
pub struct Plain {
    pub state: u64,
}

impl Filter for Plain {
    type Payload = ();

    type Stream = Plain;

    fn attributes(&self) -> (names: &str)
        ensures
            names@ == ""@,
    {
        ""
    }

    fn check(&mut self, _source: &FilterSource, _attr_values: &[CString]) -> (r: Result<
        Option<()>,
        Error,
    >)
        ensures
            r == Ok::<Option<()>, Error>(None),
            *final(self) == *old(self),
    {
        Ok(None)
    }

    fn stream<N: Downstream>(
        &mut self,
        _source: &FilterSource,
        _payload: &mut Option<()>,
        _next: &mut N,
    ) -> (r: Result<Plain, Error>)
        ensures
            r == Ok::<Plain, Error>(*old(self)),
            *final(self) == *old(self),
            *final(_payload) == *old(_payload),
            *final(_next) == *old(_next),
    {
        Ok(Plain { state: self.state })
    }
}

impl FilterStream for Plain {
    fn write_with_next<N: Downstream>(&mut self, buf: &[u8], _next: &mut N) -> (r: Result<
        usize,
        IoError,
    >)
        ensures
            r matches Ok(n) && n == buf@.len(),
            *final(self) == *old(self),
            *final(_next) == *old(_next),
    {
        Ok(buf.len())
    }
}

impl MergeDriver for Plain {
    fn apply(&mut self, _filter_name: &str, _src: &MergeDriverSource) -> (r: Result<
        MergeDriverApplyResult,
        Error,
    >)
        ensures
            r matches Ok(answer) && answer is Passthrough,
            *final(self) == *old(self),
    {
        Ok(MergeDriverApplyResult::Passthrough)
    }
}

/// A filter that does not override them starts without a failure, and is not changed when
/// it starts, ends or is handed its payload back.
pub proof fn law_filter_defaults(
    starting: &mut Plain,
    started: Result<(), Error>,
    ending: &mut Plain,
    cleaning: &mut Plain,
    payload: Option<()>,
)
    requires
        call_ensures(<Plain as Filter>::initialize, (starting,), started),
        call_ensures(<Plain as Filter>::shutdown, (ending,), ()),
        call_ensures(<Plain as Filter>::cleanup, (cleaning, payload), ()),
    ensures
        started is Ok,
        final(starting).state == old(starting).state,
        final(ending).state == old(ending).state,
        final(cleaning).state == old(cleaning).state,
{
}

/// A merge driver that does not override them starts without a failure, and is not changed
/// when it starts or ends.
pub proof fn law_driver_defaults(
    starting: &mut Plain,
    started: Result<(), Error>,
    ending: &mut Plain,
)
    requires
        call_ensures(<Plain as MergeDriver>::initialize, (starting,), started),
        call_ensures(<Plain as MergeDriver>::shutdown, (ending,), ()),
    ensures
        started is Ok,
        final(starting).state == old(starting).state,
        final(ending).state == old(ending).state,
{
}

} // verus!
