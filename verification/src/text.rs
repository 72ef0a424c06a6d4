//! Null-terminated text: the form in which every text crosses the native boundary.

use crate::error::{TidyError, TidyErrorKind};
use vstd::prelude::*;
use vstd::slice::slice_to_vec;
use vstd::utf8::{
    char_is_scalar, char_u32_cast, encode_scalar, encode_utf8, has_width_1_encoding, last_continuation_byte, leading_byte_width_1,
    leading_byte_width_2, leading_byte_width_3, leading_byte_width_4,
    second_last_continuation_byte, third_last_continuation_byte,
};

verus! {

/// Whether a byte sequence holds a null byte.
pub open spec fn has_nul(bytes: Seq<u8>) -> bool {
    exists|i: int| 0 <= i < bytes.len() && bytes[i] == 0
}

/// Whether a text holds the null character.
pub open spec fn has_nul_char(text: Seq<char>) -> bool {
    exists|i: int| 0 <= i < text.len() && text[i] == '\0'
}

/// Whether the null-terminated text at the start of `bytes` ends before index `end`:
/// no byte before `end` is null, and `end` is the place of a null byte or the end
/// of `bytes`.
pub open spec fn text_ends_at(bytes: Seq<u8>, end: int) -> bool {
    &&& 0 <= end <= bytes.len()
    &&& forall|i: int| 0 <= i < end ==> bytes[i] != 0
    &&& end < bytes.len() ==> bytes[end] == 0
}

/// Length of the null-terminated text at the start of `bytes`.
pub open spec fn text_len(bytes: Seq<u8>) -> int {
    choose|end: int| text_ends_at(bytes, end)
}

/// The null-terminated text at the start of `bytes`: everything before the first
/// null byte, and all of `bytes` where none is null.
pub open spec fn text_of(bytes: Seq<u8>) -> Seq<u8> {
    bytes.subrange(0, text_len(bytes))
}

/// A null-terminated text has one end only.
pub proof fn lemma_text_end_unique(bytes: Seq<u8>, a: int, b: int)
    requires
        text_ends_at(bytes, a),
        text_ends_at(bytes, b),
    ensures
        a == b,
{
    if a < b {
        assert(bytes[a] == 0);
    } else if b < a {
        assert(bytes[b] == 0);
    }
}

/// An index that ends the text is the text's length.
pub proof fn lemma_text_len(bytes: Seq<u8>, end: int)
    requires
        text_ends_at(bytes, end),
    ensures
        text_len(bytes) == end,
        text_of(bytes) == bytes.subrange(0, end),
        !has_nul(text_of(bytes)),
        has_nul(bytes) <==> end < bytes.len(),
{
    lemma_text_end_unique(bytes, text_len(bytes), end);
    if has_nul(bytes) {
        let i = choose|i: int| 0 <= i < bytes.len() && bytes[i] == 0;
        assert(bytes[i] == 0);
    }
    if end < bytes.len() {
        assert(bytes[end] == 0);
    }
}

/// What is marshalled is read back unchanged: the null-terminated text at the
/// start of a text without null bytes that is followed by a null byte, and by
/// whatever else, is that text.
pub proof fn lemma_text_round_trip(content: Seq<u8>, rest: Seq<u8>)
    requires
        !has_nul(content),
    ensures
        text_of(content.push(0) + rest) == content,
{
    let bytes = content.push(0) + rest;
    assert forall|i: int| 0 <= i < content.len() implies bytes[i] != 0 by {
        assert(bytes[i] == content[i]);
    }
    assert(bytes[content.len() as int] == 0);
    lemma_text_len(bytes, content.len() as int);
    assert(bytes.subrange(0, content.len() as int) =~= content);
}

/// Of the bytes that UTF-8 encodes a scalar value with, only the single byte of
/// the value 0 is null.
proof fn lemma_scalar_bytes(scalar: u32)
    by (bit_vector)
    ensures
        has_width_1_encoding(scalar) ==> (leading_byte_width_1(scalar) == 0 <==> scalar == 0),
        leading_byte_width_2(scalar) != 0,
        leading_byte_width_3(scalar) != 0,
        leading_byte_width_4(scalar) != 0,
        last_continuation_byte(scalar) != 0,
        second_last_continuation_byte(scalar) != 0,
        third_last_continuation_byte(scalar) != 0,
{
}

/// The UTF-8 encoding of a character holds a null byte exactly when the
/// character is the null character.
proof fn lemma_encoded_char(c: char)
    ensures
        has_nul(encode_scalar(c as u32)) <==> c == '\0',
{
    let scalar = c as u32;
    let bytes = encode_scalar(scalar);
    char_is_scalar(c);
    char_u32_cast(c, scalar);
    char_u32_cast('\0', 0u32);
    lemma_scalar_bytes(scalar);
    if has_nul(bytes) {
        let i = choose|i: int| 0 <= i < bytes.len() && bytes[i] == 0;
        assert(bytes[i] == 0);
        assert(i == 0 || i == 1 || i == 2 || i == 3);
        assert(has_width_1_encoding(scalar));
        assert(scalar == 0);
    }
    if c == '\0' {
        assert(scalar == 0);
        assert(bytes[0] == 0);
    }
}

/// The UTF-8 encoding of a text holds a null byte exactly when the text holds
/// the null character.
pub proof fn lemma_encoded_nul(text: Seq<char>)
    ensures
        has_nul(encode_utf8(text)) <==> has_nul_char(text),
    decreases text.len(),
{
    if text.len() > 0 {
        let head = encode_scalar(text[0] as u32);
        let tail = encode_utf8(text.drop_first());
        lemma_encoded_char(text[0]);
        lemma_encoded_nul(text.drop_first());
        lemma_has_nul_concat(head, tail);
        if has_nul_char(text) {
            let i = choose|i: int| 0 <= i < text.len() && text[i] == '\0';
            if i > 0 {
                assert(text.drop_first()[i - 1] == '\0');
            }
        }
        if has_nul_char(text.drop_first()) {
            let i = choose|i: int|
                0 <= i < text.drop_first().len() && text.drop_first()[i] == '\0';
            assert(text[i + 1] == '\0');
        }
    }
}

/// A concatenation holds a null byte exactly when one of its parts does.
pub proof fn lemma_has_nul_concat(a: Seq<u8>, b: Seq<u8>)
    ensures
        has_nul(a + b) <==> has_nul(a) || has_nul(b),
{
    if has_nul(a) {
        let i = choose|i: int| 0 <= i < a.len() && a[i] == 0;
        assert((a + b)[i] == 0);
    }
    if has_nul(b) {
        let i = choose|i: int| 0 <= i < b.len() && b[i] == 0;
        assert((a + b)[a.len() + i] == 0);
    }
    if has_nul(a + b) {
        let i = choose|i: int| 0 <= i < (a + b).len() && (a + b)[i] == 0;
        if i < a.len() {
            assert(a[i] == 0);
        } else {
            assert(b[i - a.len()] == 0);
        }
    }
}

/// Length of the null-terminated text at the start of `bytes`.
pub fn text_end(bytes: &[u8]) -> (end: usize)
    ensures
        text_ends_at(bytes@, end as int),
        end == text_len(bytes@),
{
    let mut end: usize = 0;
    while end < bytes.len() && bytes[end] != 0
        invariant
            end <= bytes@.len(),
            forall|i: int| 0 <= i < end ==> bytes@[i] != 0,
        decreases bytes@.len() - end,
    {
        end += 1;
    }
    proof {
        lemma_text_len(bytes@, end as int);
    }
    end
}

/// A text in the form that the native library reads: its bytes, none of them
/// null, followed by one null byte.
#[derive(Debug, PartialEq, Eq)]
pub struct CText {
    bytes: Vec<u8>,
}

impl View for CText {
    type V = Seq<u8>;

    /// The bytes of the text, without the terminator.
    closed spec fn view(&self) -> Seq<u8> {
        self.bytes@.drop_last()
    }
}

impl Clone for CText {
    fn clone(&self) -> (copy: CText)
        ensures
            copy@ == self@,
            copy.with_nul() == self.with_nul(),
    {
        proof {
            use_type_invariant(self);
        }
        let bytes = self.bytes.clone();
        proof {
            assert(bytes@ =~= self.bytes@);
        }
        CText { bytes }
    }
}

impl CText {
    #[verifier::type_invariant]
    spec fn terminated(&self) -> bool {
        text_ends_at(self.bytes@, self.bytes@.len() - 1)
    }

    /// The bytes that the native library is handed: the text and its terminator.
    pub closed spec fn with_nul(&self) -> Seq<u8> {
        self.bytes@
    }

    /// Puts `content` into null-terminated form. Fails, without panicking, exactly
    /// when `content` holds a null byte.
    pub fn new(content: Vec<u8>) -> (text: Result<CText, TidyError>)
        ensures
            has_nul(content@) <==> text is Err,
            text matches Ok(t) ==> t@ == content@ && t.with_nul() == content@.push(0),
            text matches Err(e) ==> e@ == TidyError::failure(
                TidyErrorKind::Marshal,
                TidyError::marshal_text(),
            ),
    {
        let end = text_end(content.as_slice());
        proof {
            lemma_text_len(content@, end as int);
        }
        if end < content.len() {
            return Err(TidyError::marshal());
        }
        let mut bytes = content;
        bytes.push(0);
        proof {
            assert(bytes@.drop_last() =~= content@);
        }
        Ok(CText { bytes })
    }

    /// Puts the UTF-8 encoding of `text` into null-terminated form. Fails, without
    /// panicking, exactly when `text` holds the null character.
    pub fn from_str(text: &str) -> (marshalled: Result<CText, TidyError>)
        ensures
            has_nul_char(text@) <==> marshalled is Err,
            has_nul(encode_utf8(text@)) <==> marshalled is Err,
            marshalled matches Ok(t) ==> t@ == encode_utf8(text@) && t.with_nul() == encode_utf8(
                text@,
            ).push(0),
            marshalled matches Err(e) ==> e@ == TidyError::failure(
                TidyErrorKind::Marshal,
                TidyError::marshal_text(),
            ),
    {
        proof {
            lemma_encoded_nul(text@);
        }
        Self::new(slice_to_vec(text.as_bytes()))
    }

    /// The bytes of the text and its terminator, as the native library reads them.
    pub fn as_bytes_with_nul(&self) -> (bytes: &[u8])
        ensures
            bytes@ == self.with_nul(),
            bytes@ == self@.push(0),
            !has_nul(self@),
    {
        proof {
            use_type_invariant(self);
            assert(self.bytes@ =~= self.bytes@.drop_last().push(0));
            lemma_text_len(self.bytes@, self.bytes@.len() - 1);
        }
        self.bytes.as_slice()
    }

    /// The bytes of the text, without the terminator.
    pub fn to_bytes(&self) -> (bytes: Vec<u8>)
        ensures
            bytes@ == self@,
            !has_nul(bytes@),
    {
        proof {
            use_type_invariant(self);
            lemma_text_len(self.bytes@, self.bytes@.len() - 1);
        }
        let mut bytes = self.bytes.clone();
        bytes.pop();
        bytes
    }
}

} // verus!
