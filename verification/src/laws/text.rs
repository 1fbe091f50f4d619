//! C strings, errors, answers, addresses and index entries.
use vstd::prelude::*;

use crate::call::Reply;
use crate::cstring::{CString, NulError};
use crate::error::{Error, IoError, IoErrorKind, LastError};
use crate::handle::{Object, Repository};
use crate::index::IndexEntry;
use crate::oid::Oid;

verus! {

/// Bytes become a C string exactly if none of them is zero. Read back they are the same,
/// and C finds one zero byte behind them. A refusal names the first zero byte.
pub proof fn law_c_string_round_trip(
    bytes: &[u8],
    r: Result<CString, NulError>,
    text: Vec<u8>,
    with_nul: &[u8],
)
    requires
        call_ensures(CString::new, (bytes,), r),
        r matches Ok(c) ==> call_ensures(CString::to_bytes, (&c,), text),
        r matches Ok(c) ==> call_ensures(CString::as_bytes_with_nul, (&c,), with_nul),
    ensures
        r is Ok <==> forall|i: int| 0 <= i < bytes@.len() ==> #[trigger] bytes@[i] != 0,
        r matches Ok(c) ==> c@ == bytes@,
        r is Ok ==> text@ == bytes@,
        r is Ok ==> with_nul@ == bytes@ + seq![0u8],
        r matches Err(e) ==> e.position < bytes@.len() && bytes@[e.position as int] == 0,
        r matches Err(e) ==> forall|i: int| 0 <= i < e.position ==> #[trigger] bytes@[i] != 0,
{
    assert(bytes@.push(0u8) =~= bytes@ + seq![0u8]);
    if let Err(e) = r {
        assert forall|i: int| 0 <= i < e.position implies #[trigger] bytes@[i] != 0 by {
            let before = bytes@.take(e.position as int);
            assert(before[i] == bytes@[i]);
            assert(before.contains(before[i]));
        }
    } else {
        assert forall|i: int| 0 <= i < bytes@.len() implies #[trigger] bytes@[i] != 0 by {
            assert(bytes@.contains(bytes@[i]));
        }
    }
}

/// Every C string is read back as it stands, and C finds one zero byte behind it.
pub proof fn law_c_string_read(c: CString, text: Vec<u8>, with_nul: &[u8])
    requires
        call_ensures(CString::to_bytes, (&c,), text),
        call_ensures(CString::as_bytes_with_nul, (&c,), with_nul),
    ensures
        text@ == c@,
        with_nul@ == c@ + seq![0u8],
        forall|i: int| 0 <= i < text@.len() ==> #[trigger] text@[i] != 0,
{
    assert(c@.push(0u8) =~= c@ + seq![0u8]);
    assert forall|i: int| 0 <= i < text@.len() implies #[trigger] text@[i] != 0 by {
        assert(text@.contains(text@[i]));
    }
}

/// Bytes that C cannot take are an error with one message; all others become a C string of
/// exactly those bytes.
pub proof fn law_refused_bytes(bytes: &[u8], r: Result<CString, Error>)
    requires
        call_ensures(CString::from_bytes, (bytes,), r),
    ensures
        bytes@.contains(0u8) ==> (r matches Err(e) && e.code == -1 && e.klass == 0 && e.message@
            == "data contained a nul byte that could not be represented as a string"@),
        !bytes@.contains(0u8) ==> r is Ok,
        r matches Ok(c) ==> c@ == bytes@,
{
}

/// An error that is raised with a message carries that message and no code or class of its
/// own; the message can be read back.
pub proof fn law_error_message(s: &str, e: Error, read: &str)
    requires
        call_ensures(Error::from_str, (s,), e),
        call_ensures(Error::message, (&e,), read),
    ensures
        e.code == -1,
        e.klass == 0,
        e.message@ == s@,
        read@ == s@,
{
}

/// Every error gives back the message that it holds.
pub proof fn law_message_read(e: Error, read: &str)
    requires
        call_ensures(Error::message, (&e,), read),
    ensures
        read@ == e.message@,
{
}

/// The error of a failed call keeps the call's return code, and libgit2's class and words
/// where it has any.
pub proof fn law_last_error(code: i32, last: Option<LastError>, e: Error)
    requires
        call_ensures(Error::last_error, (code, last), e),
    ensures
        e.code == code,
        last matches Some(l) ==> e.klass == l.klass && e.message@ == l.message@,
        last is None ==> e.klass == 0 && e.message@ == "an unknown git error occurred"@,
{
}

/// The error for text that C cannot take does not depend on where the zero byte is.
pub proof fn law_nul_error(nul: NulError, r: Result<(), Error>)
    requires
        r matches Err(e) && call_ensures(Error::from_nul, (nul,), e),
    ensures
        (r matches Err(e) && e.code == -1 && e.klass == 0 && e.message@
            == "data contained a nul byte that could not be represented as a string"@),
{
}

/// An I/O error that the library raises shows its text, also when it is turned into an
/// error of the other kind.
pub proof fn law_io_error_text(s: &str, io: IoError, e: Error)
    requires
        call_ensures(IoError::other, (s,), io),
        call_ensures(IoError::into_error, (io,), e),
    ensures
        io.kind == IoErrorKind::Other,
        io.message@ == s@,
        e.message@ == s@,
{
}

/// Whatever kind an I/O error is of, its text alone goes on.
pub proof fn law_io_error_goes_on(io: IoError, e: Error)
    requires
        call_ensures(IoError::into_error, (io,), e),
    ensures
        e.code == -1,
        e.klass == 0,
        e.message@ == io.message@,
{
}

/// A call gives what it wrote exactly if its return code is not negative, and otherwise an
/// error that keeps the code and what libgit2 says of it.
pub proof fn law_reply_checked<T>(reply: Reply<T>, r: Result<T, Error>)
    requires
        call_ensures(Reply::<T>::check, (reply,), r),
    ensures
        r is Ok <==> reply.rc >= 0,
        match r {
            Ok(out) => reply.rc >= 0 && out == reply.out,
            Err(e) => reply.rc < 0 && e.code == reply.rc && match reply.last_error {
                Some(last) => e.klass == last.klass && e.message@ == last.message@,
                None => e.klass == 0 && e.message@ == "an unknown git error occurred"@,
            },
        },
{
}

/// An address is kept as it is.
pub proof fn law_addresses_kept(
    raw: usize,
    repo: Repository,
    repo_raw: usize,
    object: Object,
    object_raw: usize,
)
    requires
        call_ensures(Repository::from_raw, (raw,), repo),
        call_ensures(Repository::raw, (&repo,), repo_raw),
        call_ensures(Object::from_raw, (raw,), object),
        call_ensures(Object::raw, (&object,), object_raw),
    ensures
        repo_raw == raw,
        repo@ == raw,
        object_raw == raw,
        object@ == raw,
{
}

/// The id of no object is zero in each of its twenty bytes.
pub proof fn law_zero_id(oid: Oid, i: int)
    requires
        call_ensures(Oid::zero, (), oid),
        0 <= i < 20,
    ensures
        oid.id@.len() == 20,
        oid.id@[i] == 0,
{
}

/// A copy of an index entry records the same in every field.
pub proof fn law_index_entry_copied(entry: IndexEntry, copy: IndexEntry)
    requires
        call_ensures(<IndexEntry as Clone>::clone, (&entry,), copy),
    ensures
        copy.ctime == entry.ctime,
        copy.mtime == entry.mtime,
        copy.dev == entry.dev,
        copy.ino == entry.ino,
        copy.mode == entry.mode,
        copy.uid == entry.uid,
        copy.gid == entry.gid,
        copy.file_size == entry.file_size,
        copy.id == entry.id,
        copy.flags == entry.flags,
        copy.flags_extended == entry.flags_extended,
        copy.path@ == entry.path@,
{
}

} // verus!
