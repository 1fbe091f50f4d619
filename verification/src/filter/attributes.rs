//! The attributes that a filter asks for, and the values that a file has for them.
use vstd::prelude::*;

use crate::cstring::CString;

verus! {

/// Whether C counts the byte as white space.
pub open spec fn is_space(byte: u8) -> bool {
    byte == 0x20 || 0x09 <= byte <= 0x0d
}

/// Whether a name starts at index `i`: after white space, or at the very start.
pub open spec fn starts_name(bytes: Seq<u8>, i: int) -> bool {
    !is_space(bytes[i]) && (i == 0 || is_space(bytes[i - 1]))
}

/// How many names a whitespace-separated list holds.
pub open spec fn name_count(bytes: Seq<u8>) -> nat
    decreases bytes.len(),
{
    if bytes.len() == 0 {
        0
    } else {
        name_count(bytes.drop_last()) + if starts_name(bytes, bytes.len() - 1) {
            1nat
        } else {
            0nat
        }
    }
}

/// How many attributes a filter asks for: the number of names in its list.
pub fn requested(attributes: &CString) -> (n: usize)
    ensures
        n == name_count(attributes@),
{
    let bytes = attributes.to_bytes();
    let mut n: usize = 0;
    let mut after_space = true;
    let mut i: usize = 0;
    while i < bytes.len()
        invariant
            i <= bytes@.len(),
            n <= i,
            n == name_count(bytes@.take(i as int)),
            after_space == (i == 0 || is_space(bytes@[i - 1])),
        decreases bytes@.len() - i,
    {
        let byte: u8 = bytes[i];
        let space = byte == 0x20 || (0x09 <= byte && byte <= 0x0d);
        assert(bytes@.take(i + 1).drop_last() =~= bytes@.take(i as int));
        if !space && after_space {
            n = n + 1;
        }
        after_space = space;
        i = i + 1;
    }
    assert(bytes@.take(i as int) =~= bytes@);
    n
}

/// Lists add up: between two lists that white space keeps apart no name is made, split or
/// lost.
pub proof fn law_lists_add_up(first: Seq<u8>, space: u8, second: Seq<u8>)
    requires
        is_space(space),
    ensures
        name_count(first.push(space) + second) == name_count(first) + name_count(second),
    decreases second.len(),
{
    let whole = first.push(space) + second;
    if second.len() == 0 {
        assert(whole.drop_last() =~= first);
    } else {
        law_lists_add_up(first, space, second.drop_last());
        assert(whole.drop_last() =~= first.push(space) + second.drop_last());
    }
}

/// What has no white space in it, and is something, is one name.
pub proof fn law_one_name(name: Seq<u8>)
    requires
        name.len() > 0,
        forall|i: int| 0 <= i < name.len() ==> !is_space(#[trigger] name[i]),
    ensures
        name_count(name) == 1,
    decreases name.len(),
{
    let shorter = name.drop_last();
    if shorter.len() > 0 {
        assert forall|i: int| 0 <= i < shorter.len() implies !is_space(#[trigger] shorter[i]) by {
            assert(shorter[i] == name[i]);
        }
        law_one_name(shorter);
        assert(!is_space(name[shorter.len() - 1]));
    } else {
        assert(name_count(shorter) == 0);
    }
}

/// Whether `entries` are what `read` gives for the indices from zero on.
pub open spec fn are_entries<R: Fn(usize) -> Option<CString>>(
    read: R,
    entries: Seq<Option<CString>>,
) -> bool {
    forall|i: int|
        #![trigger entries[i]]
        0 <= i < entries.len() ==> call_ensures(read, (i as usize,), entries[i])
}

/// The filled entries, in order.
pub open spec fn filled(entries: Seq<Option<CString>>) -> Seq<CString>
    decreases entries.len(),
{
    if entries.len() == 0 {
        Seq::empty()
    } else {
        match entries.last() {
            Some(value) => filled(entries.drop_last()).push(value),
            None => filled(entries.drop_last()),
        }
    }
}

/// Whether `values` are the values of the requested attributes: the filled ones among
/// that many entries, in order. There may be nothing to read them from.
pub open spec fn are_values<R: Fn(usize) -> Option<CString>>(
    read: Option<R>,
    requested: nat,
    values: Seq<CString>,
) -> bool {
    match read {
        Some(r) => exists|entries: Seq<Option<CString>>|
            {
                &&& entries.len() == requested
                &&& #[trigger] are_entries(r, entries)
                &&& values == filled(entries)
            },
        None => values.len() == 0,
    }
}

/// The values of the requested attributes, in the order in which they were requested. An
/// attribute without a value has none here either.
///
/// `read` reads the entry for the attribute at an index, which is empty where the attribute
/// has no value. There may be no entries at all.
pub fn attr_values<R: Fn(usize) -> Option<CString>>(read: Option<R>, requested: usize) -> (values:
    Vec<CString>)
    requires
        read matches Some(r) ==> forall|i: usize|
            i < requested ==> #[trigger] call_requires(r, (i,)),
    ensures
        are_values(read, requested as nat, values@),
{
    let mut values: Vec<CString> = Vec::new();
    if let Some(r) = read {
        let ghost mut entries: Seq<Option<CString>> = Seq::empty();
        let mut i: usize = 0;
        while i < requested
            invariant
                i <= requested,
                forall|k: usize| k < requested ==> #[trigger] call_requires(r, (k,)),
                entries.len() == i,
                are_entries(r, entries),
                values@ == filled(entries),
            decreases requested - i,
        {
            let entry = r(i);
            proof {
                let before = entries;
                entries = before.push(entry);
                assert(entries.drop_last() =~= before);
                assert forall|k: int|
                    #![trigger entries[k]]
                    0 <= k < entries.len() implies call_ensures(
                    r,
                    (k as usize,),
                    entries[k],
                ) by {
                    if k < before.len() {
                        assert(entries[k] == before[k]);
                    }
                }
            }
            if let Some(value) = entry {
                values.push(value);
            }
            i = i + 1;
        }
        assert(are_entries(r, entries));
    }
    values
}

/// No value that an attribute has is lost, whichever attributes have none: the value of the
/// attribute at index `i` is handed over, after as many values as the attributes before it
/// have.
pub proof fn law_no_value_is_lost(entries: Seq<Option<CString>>, i: int)
    requires
        0 <= i < entries.len(),
        entries[i] is Some,
    ensures
        filled(entries.take(i)).len() < filled(entries).len(),
        filled(entries)[filled(entries.take(i)).len() as int] == entries[i]->0,
    decreases entries.len(),
{
    let shorter = entries.drop_last();
    if i == entries.len() - 1 {
        assert(entries.take(i) =~= shorter);
    } else {
        law_no_value_is_lost(shorter, i);
        assert(shorter.take(i) =~= entries.take(i));
    }
}

/// Nothing but the attributes' values is handed over, and where every attribute has one,
/// the values stand at the attributes' indices.
pub proof fn law_only_values(entries: Seq<Option<CString>>)
    ensures
        filled(entries).len() <= entries.len(),
        forall|k: int|
            #![trigger filled(entries)[k]]
            0 <= k < filled(entries).len() ==> entries.contains(Some(filled(entries)[k])),
        filled(entries).len() == entries.len() ==> forall|k: int|
            0 <= k < entries.len() ==> #[trigger] entries[k] == Some(filled(entries)[k]),
    decreases entries.len(),
{
    if entries.len() > 0 {
        let shorter = entries.drop_last();
        law_only_values(shorter);
        assert forall|k: int|
            #![trigger filled(entries)[k]]
            0 <= k < filled(entries).len() implies entries.contains(
            Some(filled(entries)[k]),
        ) by {
            if k < filled(shorter).len() {
                assert(filled(entries)[k] == filled(shorter)[k]);
                assert(shorter.contains(Some(filled(shorter)[k])));
                let at = choose|at: int|
                    0 <= at < shorter.len() && shorter[at] == Some(filled(shorter)[k]);
                assert(entries[at] == Some(filled(entries)[k]));
            } else {
                assert(entries[entries.len() - 1] == Some(filled(entries)[k]));
            }
        }
        if filled(entries).len() == entries.len() {
            assert forall|k: int| 0 <= k < entries.len() implies #[trigger] entries[k] == Some(
                filled(entries)[k],
            ) by {
                if k < shorter.len() {
                    assert(shorter[k] == entries[k]);
                }
            }
        }
    }
}

} // verus!
