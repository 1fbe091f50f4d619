//! The attributes that a filter asks for.
use vstd::prelude::*;

use crate::cstring::CString;
use crate::error::Error;
use crate::filter::attributes::{attr_values, requested};
use crate::filter::custom::{filter_check_cb, CheckReply, PayloadUpdate, RawFilter};
use crate::filter::source::FilterSource;

verus! {

/// The number of requested attributes: none in an empty list, one in a list that is
/// something without white space, and in two lists that white space keeps apart as many as
/// in both.
pub proof fn law_requested(
    list: CString,
    n: usize,
    first: CString,
    first_n: usize,
    space: u8,
    second: CString,
    second_n: usize,
)
    requires
        call_ensures(requested, (&list,), n),
        call_ensures(requested, (&first,), first_n),
        call_ensures(requested, (&second,), second_n),
        space == 0x20 || space == 0x09 || space == 0x0a || space == 0x0b || space == 0x0c || space
            == 0x0d,
    ensures
        list@.len() == 0 ==> n == 0,
        list@.len() > 0 && (forall|i: int|
            0 <= i < list@.len() ==> (#[trigger] list@[i]) != 0x20 && !(0x09 <= list@[i] <= 0x0d))
            ==> n == 1,
        list@ == first@ + seq![space] + second@ ==> n == first_n + second_n,
{
    if list@ == first@ + seq![space] + second@ {
        crate::filter::attributes::law_lists_add_up(first@, space, second@);
        assert(list@ =~= first@.push(space) + second@);
    }
    if list@.len() > 0 && (forall|i: int|
        0 <= i < list@.len() ==> (#[trigger] list@[i]) != 0x20 && !(0x09 <= list@[i] <= 0x0d)) {
        crate::filter::attributes::law_one_name(list@);
    }
}

/// Where each value stood: the indices of the filled entries, in increasing order.
proof fn lemma_places(entries: Seq<Option<CString>>) -> (at: Seq<int>)
    ensures
        at.len() == crate::filter::attributes::filled(entries).len(),
        forall|k: int|
            #![trigger at[k]]
            0 <= k < at.len() ==> 0 <= at[k] < entries.len() && entries[at[k]] == Some(
                crate::filter::attributes::filled(entries)[k],
            ),
        forall|j: int, k: int| 0 <= j < k < at.len() ==> at[j] < at[k],
        forall|i: int|
            0 <= i < entries.len() && !(#[trigger] at.contains(i)) ==> entries[i] is None,
    decreases entries.len(),
{
    if entries.len() == 0 {
        Seq::empty()
    } else {
        let shorter = entries.drop_last();
        let before = lemma_places(shorter);
        let at = if entries.last() is Some {
            before.push(entries.len() - 1)
        } else {
            before
        };
        assert forall|i: int|
            0 <= i < entries.len() && !(#[trigger] at.contains(i)) implies entries[i] is None by {
            if i < shorter.len() {
                if before.contains(i) {
                    let k = choose|k: int| 0 <= k < before.len() && before[k] == i;
                    assert(at[k] == i);
                }
                assert(shorter[i] is None);
            } else if entries.last() is Some {
                assert(at[before.len() as int] == i);
            }
        }
        assert forall|k: int|
            #![trigger at[k]]
            0 <= k < at.len() implies 0 <= at[k] < entries.len() && entries[at[k]] == Some(
            crate::filter::attributes::filled(entries)[k],
        ) by {
            if k < before.len() {
                assert(before[k] == at[k]);
            }
        }
        at
    }
}

/// Where every entry is filled, there are as many values as entries.
proof fn lemma_all_filled(entries: Seq<Option<CString>>)
    requires
        forall|i: int| 0 <= i < entries.len() ==> (#[trigger] entries[i]) is Some,
    ensures
        crate::filter::attributes::filled(entries).len() == entries.len(),
    decreases entries.len(),
{
    if entries.len() > 0 {
        let shorter = entries.drop_last();
        assert forall|i: int| 0 <= i < shorter.len() implies (#[trigger] shorter[i]) is Some by {
            assert(entries[i] is Some);
        }
        lemma_all_filled(shorter);
        assert(entries[entries.len() - 1] is Some);
    }
}

/// What is known of the values that were read.
proof fn lemma_values<R: Fn(usize) -> Option<CString>>(r: R, n: usize, values: Seq<CString>) -> (at:
    Seq<int>)
    requires
        crate::filter::attributes::are_values(Some(r), n as nat, values),
    ensures
        at.len() == values.len(),
        forall|k: int|
            #![trigger at[k]]
            0 <= k < at.len() ==> 0 <= at[k] < n && call_ensures(
                r,
                (at[k] as usize,),
                Some(values[k]),
            ),
        forall|j: int, k: int| 0 <= j < k < at.len() ==> at[j] < at[k],
        forall|i: int|
            0 <= i < n && !(#[trigger] at.contains(i)) ==> call_ensures(r, (i as usize,), None),
        (forall|i: usize, entry: Option<CString>|
                    i < n && #[trigger] call_ensures(r, (i,), entry) ==> entry is Some) ==> {
            &&& values.len() == n
            &&& forall|k: int|
                #![trigger values[k]]
                0 <= k < n ==> call_ensures(r, (k as usize,), Some(values[k]))
        },
{
    let entries = choose|entries: Seq<Option<CString>>|
        {
            &&& entries.len() == n
            &&& #[trigger] crate::filter::attributes::are_entries(r, entries)
            &&& values == crate::filter::attributes::filled(entries)
        };
    assert forall|i: int|
        #![trigger entries[i]]
        0 <= i < n implies call_ensures(r, (i as usize,), entries[i]) by {}
    let at = lemma_places(entries);
    assert forall|i: int| 0 <= i < n && !(#[trigger] at.contains(i)) implies call_ensures(
        r,
        (i as usize,),
        None,
    ) by {
        assert(entries[i] is None);
    }
    if (forall|i: usize, entry: Option<CString>|
                    i < n && #[trigger] call_ensures(r, (i,), entry) ==> entry is Some) {
        assert forall|i: int| 0 <= i < entries.len() implies (#[trigger] entries[i]) is Some by {
            assert(call_ensures(r, (i as usize,), entries[i]));
        }
        lemma_all_filled(entries);
        crate::filter::attributes::law_only_values(entries);
        assert forall|k: int|
            #![trigger values[k]]
            0 <= k < n implies call_ensures(r, (k as usize,), Some(values[k])) by {
            assert(entries[k] == Some(values[k]));
        }
    }
    at
}

/// The values are read at increasing indices among the requested ones, and at every other
/// requested index there is none. If there is one at each, the value at index `k` is the
/// one read at `k`.
pub proof fn law_values_in_order<R: Fn(usize) -> Option<CString>>(
    read: Option<R>,
    n: usize,
    values: Vec<CString>,
)
    requires
        call_ensures(attr_values::<R>, (read, n), values),
    ensures
        read is None ==> values@.len() == 0,
        read matches Some(r) ==> exists|at: Seq<int>|
                    #![trigger at.len()]
                    {
                        &&& at.len() == values@.len()
                        &&& forall|k: int|
                            #![trigger at[k]]
                            0 <= k < at.len() ==> 0 <= at[k] < n && call_ensures(
                                r,
                                (at[k] as usize,),
                                Some(values@[k]),
                            )
                        &&& forall|j: int, k: int| 0 <= j < k < at.len() ==> at[j] < at[k]
                        &&& forall|i: int|
                            0 <= i < n && !(#[trigger] at.contains(i)) ==> call_ensures(
                                r,
                                (i as usize,),
                                None,
                            )
                    },
        read matches Some(r) ==> (forall|i: usize, entry: Option<CString>|
                    i < n && #[trigger] call_ensures(r, (i,), entry) ==> entry is Some) ==> {
                    &&& values@.len() == n
                    &&& forall|k: int|
                        #![trigger values@[k]]
                        0 <= k < n ==> call_ensures(r, (k as usize,), Some(values@[k]))
                },
{
    if let Some(r) = read {
        let at = lemma_values(r, n, values@);
        assert(at.len() == values@.len());
    }
}

/// The values can be read through a function that takes only the requested indices.
pub proof fn law_values_asks<R: Fn(usize) -> Option<CString>>(read: Option<R>, n: usize)
    requires
        read matches Some(r) ==> forall|i: usize| i < n ==> #[trigger] call_requires(r, (i,)),
    ensures
        call_requires(attr_values::<R>, (read, n)),
{
}

/// The check callback hands the filter the source and the values of the attributes that it
/// requested, read at increasing indices, none left out; if each has a value, the value at
/// index `k` is the one read at `k`. The filter is applied with its payload, skipped
/// without one, or filtering stops and the payload stays.
pub proof fn law_check<
    P,
    R: Fn(usize) -> Option<CString>,
    C: FnOnce(&FilterSource, &[CString]) -> Option<Result<Option<P>, Error>>,
>(
    filter: &RawFilter,
    source: &FilterSource,
    read: Option<R>,
    check: C,
    n: usize,
    reply: CheckReply<P>,
)
    requires
        call_ensures(filter_check_cb::<P, R, C>, (filter, source, read, check), reply),
        call_ensures(requested, (&filter.attributes,), n),
    ensures
        exists|values: &[CString], outcome: Option<Result<Option<P>, Error>>|
            {
                &&& #[trigger] call_ensures(check, (source, values), outcome)
                &&& read is None ==> values@.len() == 0
                &&& read matches Some(r) ==> exists|at: Seq<int>|
                    #![trigger at.len()]
                    {
                        &&& at.len() == values@.len()
                        &&& forall|k: int|
                            #![trigger at[k]]
                            0 <= k < at.len() ==> 0 <= at[k] < n && call_ensures(
                                r,
                                (at[k] as usize,),
                                Some(values@[k]),
                            )
                        &&& forall|j: int, k: int| 0 <= j < k < at.len() ==> at[j] < at[k]
                        &&& forall|i: int|
                            0 <= i < n && !(#[trigger] at.contains(i)) ==> call_ensures(
                                r,
                                (i as usize,),
                                None,
                            )
                    }
                &&& read matches Some(r) ==> (forall|i: usize, entry: Option<CString>|
                    i < n && #[trigger] call_ensures(r, (i,), entry) ==> entry is Some) ==> {
                    &&& values@.len() == n
                    &&& forall|k: int|
                        #![trigger values@[k]]
                        0 <= k < n ==> call_ensures(r, (k as usize,), Some(values@[k]))
                }
                &&& match outcome {
                    Some(Ok(Some(p))) => reply.code == 0 && reply.payload == PayloadUpdate::Store(
                        Some(p),
                    ),
                    Some(Ok(None)) => reply.code == -30 && reply.payload
                        == PayloadUpdate::<P>::Store(None),
                    _ => reply.code == -1 && reply.payload == PayloadUpdate::<P>::Keep,
                }
            },
{
    let (values, outcome) = choose|values: &[CString], outcome: Option<Result<Option<P>, Error>>|
        {
            &&& crate::filter::attributes::are_values(read, n as nat, values@)
            &&& #[trigger] call_ensures(check, (source, values), outcome)
            &&& reply == CheckReply::to_outcome(outcome)
        };
    if let Some(r) = read {
        let at = lemma_values(r, n, values@);
        assert(at.len() == values@.len());
    }
    assert(call_ensures(check, (source, values), outcome));
}

/// The check callback can be given a function that reads only the requested indices, and a
/// filter that takes only this source and the values in their order.
pub proof fn law_check_asks<
    P,
    R: Fn(usize) -> Option<CString>,
    C: FnOnce(&FilterSource, &[CString]) -> Option<Result<Option<P>, Error>>,
>(filter: &RawFilter, source: &FilterSource, read: Option<R>, check: C, n: usize)
    requires
        call_ensures(requested, (&filter.attributes,), n),
        read matches Some(r) ==> forall|i: usize| i < n ==> #[trigger] call_requires(r, (i,)),
        forall|values: &[CString]|
            ({
                &&& read is None ==> values@.len() == 0
                &&& read matches Some(r) ==> exists|at: Seq<int>|
                    #![trigger at.len()]
                    {
                        &&& at.len() == values@.len()
                        &&& forall|k: int|
                            #![trigger at[k]]
                            0 <= k < at.len() ==> 0 <= at[k] < n && call_ensures(
                                r,
                                (at[k] as usize,),
                                Some(values@[k]),
                            )
                        &&& forall|j: int, k: int| 0 <= j < k < at.len() ==> at[j] < at[k]
                        &&& forall|i: int|
                            0 <= i < n && !(#[trigger] at.contains(i)) ==> call_ensures(
                                r,
                                (i as usize,),
                                None,
                            )
                    }
            }) ==> #[trigger] call_requires(check, (source, values)),
    ensures
        call_requires(filter_check_cb::<P, R, C>, (filter, source, read, check)),
{
    assert forall|values: &[CString]|
        crate::filter::attributes::are_values(read, filter.requested(), values@)
            implies #[trigger] call_requires(check, (source, values)) by {
        if let Some(r) = read {
            let at = lemma_values(r, n, values@);
            assert(at.len() == values@.len());
        }
    }
}

} // verus!
