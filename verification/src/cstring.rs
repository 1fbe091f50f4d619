//! Strings as C takes them.
use vstd::prelude::*;

use crate::error::{Error, ErrorView};

verus! {

/// Bytes that C can take as a string: none of them is zero, and a zero follows.
///
/// The view is the text without the terminator.
pub struct CString {
    inner: Vec<u8>,
}

/// The bytes held a zero, the first one at `position`.
#[derive(Clone, Copy, Debug, PartialEq, Eq)]
pub struct NulError {
    pub position: usize,
}

impl View for CString {
    type V = Seq<u8>;

    closed spec fn view(&self) -> Seq<u8> {
        self.inner@.drop_last()
    }
}

impl CString {
    /// Whether C can take these bytes as a string: none of them is zero.
    pub open spec fn fits(bytes: Seq<u8>) -> bool {
        !bytes.contains(0u8)
    }

    /// The bytes of a text: its UTF-8 encoding.
    pub open spec fn encoded(text: Seq<char>) -> Seq<u8> {
        vstd::utf8::encode_utf8(text)
    }

    /// Whether this is the C string of these bytes, which C can take.
    pub open spec fn is_bytes(self, bytes: Seq<u8>) -> bool {
        CString::fits(bytes) && self@ == bytes
    }

    /// Whether this is the C string of this text, which C can take.
    pub open spec fn is_text(self, text: Seq<char>) -> bool {
        self.is_bytes(CString::encoded(text))
    }

    #[verifier::type_invariant]
    spec fn terminated(self) -> bool {
        &&& self.inner@.len() > 0
        &&& self.inner@.last() == 0u8
        &&& CString::fits(self.inner@.drop_last())
    }

    /// Copies `bytes` into a C string, or says where the first zero byte is.
    pub fn new(bytes: &[u8]) -> (r: Result<CString, NulError>)
        ensures
            r is Ok <==> CString::fits(bytes@),
            match r {
                Ok(c) => c@ == bytes@,
                Err(e) => {
                    &&& e.position < bytes@.len()
                    &&& bytes@[e.position as int] == 0u8
                    &&& CString::fits(bytes@.take(e.position as int))
                },
            },
    {
        let mut inner: Vec<u8> = Vec::new();
        let mut i: usize = 0;
        while i < bytes.len()
            invariant
                i <= bytes@.len(),
                inner@ == bytes@.take(i as int),
                CString::fits(bytes@.take(i as int)),
            decreases bytes@.len() - i,
        {
            let byte: u8 = bytes[i];
            if byte == 0 {
                assert(bytes@[i as int] == 0u8);
                return Err(NulError { position: i });
            }
            inner.push(byte);
            proof {
                let shorter = bytes@.take(i as int);
                let longer = bytes@.take(i + 1);
                assert(longer =~= shorter.push(byte));
                assert forall|k: int| 0 <= k < longer.len() implies longer[k] != 0u8 by {
                    if k < i {
                        assert(shorter[k] == longer[k]);
                        assert(shorter.contains(shorter[k]));
                    }
                }
            }
            i = i + 1;
        }
        assert(bytes@.take(i as int) =~= bytes@);
        inner.push(0);
        assert(inner@.drop_last() =~= bytes@);
        Ok(CString { inner })
    }

    /// Copies `bytes` into a C string; bytes that C cannot take are an error.
    pub fn from_bytes(bytes: &[u8]) -> (r: Result<CString, Error>)
        ensures
            match r {
                Ok(c) => c.is_bytes(bytes@),
                Err(e) => !CString::fits(bytes@) && e@ == ErrorView::nul(),
            },
    {
        match CString::new(bytes) {
            Ok(c) => Ok(c),
            Err(nul) => Err(Error::from_nul(nul)),
        }
    }

    /// The text, without the terminator.
    pub fn to_bytes(&self) -> (bytes: Vec<u8>)
        ensures
            bytes@ == self@,
            CString::fits(bytes@),
    {
        proof {
            use_type_invariant(self);
        }
        let mut bytes: Vec<u8> = self.inner.clone();
        bytes.truncate(self.inner.len() - 1);
        assert(bytes@ =~= self@);
        bytes
    }

    /// The text and the zero byte that ends it: what a C function reads.
    pub fn as_bytes_with_nul(&self) -> (bytes: &[u8])
        ensures
            bytes@ == self@.push(0u8),
            CString::fits(self@),
    {
        proof {
            use_type_invariant(self);
        }
        assert(self.inner@ =~= self@.push(0u8));
        self.inner.as_slice()
    }
}

/// The encoding of one character holds a zero byte exactly if it is the zero character.
proof fn scalar_fits(scalar: u32)
    ensures
        CString::fits(vstd::utf8::encode_scalar(scalar)) <==> scalar != 0,
{
    let bytes = vstd::utf8::encode_scalar(scalar);
    assert(scalar <= 0x7f ==> (((scalar & 0x7f) as u8) == 0u8 <==> scalar == 0)) by (bit_vector);
    assert(0xc0u8 | ((scalar >> 6) & 0x1f) as u8 != 0u8) by (bit_vector);
    assert(0xe0u8 | ((scalar >> 12) & 0x0f) as u8 != 0u8) by (bit_vector);
    assert(0xf0u8 | ((scalar >> 18) & 0x7) as u8 != 0u8) by (bit_vector);
    assert(0x80u8 | (scalar & 0x3f) as u8 != 0u8) by (bit_vector);
    assert(0x80u8 | ((scalar >> 6) & 0x3f) as u8 != 0u8) by (bit_vector);
    assert(0x80u8 | ((scalar >> 12) & 0x3f) as u8 != 0u8) by (bit_vector);
    if scalar == 0 {
        assert(bytes[0] == 0u8);
        assert(bytes.contains(0u8));
    } else {
        assert forall|i: int| 0 <= i < bytes.len() implies bytes[i] != 0u8 by {}
    }
}

/// C can take a text exactly if no character of it is the zero character.
pub proof fn law_text_fits(text: Seq<char>)
    ensures
        CString::fits(CString::encoded(text)) <==> !text.contains('\0'),
    decreases text.len(),
{
    let bytes = CString::encoded(text);
    if text.len() > 0 {
        let head: char = text[0];
        let first = vstd::utf8::encode_scalar(head as u32);
        let rest = text.drop_first();
        let rest_bytes = CString::encoded(rest);
        law_text_fits(rest);
        scalar_fits(head as u32);
        if head as u32 == 0 {
            vstd::utf8::char_u32_cast(head, 0);
            vstd::utf8::char_u32_cast('\0', 0);
        }
        assert(bytes == first + rest_bytes);
        if first.contains(0u8) {
            let i = choose|i: int| 0 <= i < first.len() && first[i] == 0u8;
            assert(bytes[i] == 0u8);
            assert(head == '\0');
            assert(text.contains('\0'));
        }
        if rest_bytes.contains(0u8) {
            let i = choose|i: int| 0 <= i < rest_bytes.len() && rest_bytes[i] == 0u8;
            assert(bytes[first.len() + i] == 0u8);
        }
        if bytes.contains(0u8) {
            let i = choose|i: int| 0 <= i < bytes.len() && bytes[i] == 0u8;
            if i < first.len() {
                assert(first[i] == 0u8);
            } else {
                assert(rest_bytes[i - first.len()] == 0u8);
            }
        }
        if rest.contains('\0') {
            let i = choose|i: int| 0 <= i < rest.len() && rest[i] == '\0';
            assert(text[i + 1] == '\0');
        }
        if text.contains('\0') && text[0] != '\0' {
            let i = choose|i: int| 0 <= i < text.len() && text[i] == '\0';
            assert(rest[i - 1] == '\0');
        }
    }
}

/// One text always becomes the same C string, and two texts never do: what is registered
/// under a name is found and removed under that name and under no other.
pub proof fn law_text_is_kept(a: CString, b: CString, text: Seq<char>, other: Seq<char>)
    requires
        a.is_text(text),
        b.is_text(other),
    ensures
        a@ == b@ <==> text == other,
{
    vstd::utf8::encode_utf8_decode_utf8(text);
    vstd::utf8::encode_utf8_decode_utf8(other);
}

} // verus!
