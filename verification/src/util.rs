//! Marshalling utilities: native booleans, text read from native memory, and the
//! contents of the two output buffers.

use crate::document::Tidy;
use crate::native::{Bool, BOOL_NO, BOOL_YES};
use crate::text::{lemma_text_len, text_end, text_of};
use vstd::prelude::*;
use vstd::slice::slice_subrange;
use vstd::utf8::{decode_utf8, valid_utf8};

verus! {

/// The text that `String::from_utf8_lossy` makes of a byte sequence.
pub uninterp spec fn utf8_lossy(bytes: Seq<u8>) -> Seq<char>;

/// `String::from_utf8_lossy`, followed by `into_owned`: the text that the bytes
/// encode, where every invalid sequence has become a replacement character. For
/// valid UTF-8 this is the decoded text; else only its name is known.
#[verifier::external_body]
fn from_utf8_lossy(bytes: &[u8]) -> (text: String)
    ensures
        text@ == utf8_lossy(bytes@),
        valid_utf8(bytes@) ==> text@ == decode_utf8(bytes@),
{
    String::from_utf8_lossy(bytes).into_owned()
}

/// Conversions between the native representation of values and the host's.
pub struct TidyUtil;

impl TidyUtil {
    /// The native boolean that a host boolean is written as.
    pub open spec fn native_bool(value: bool) -> Bool {
        if value {
            BOOL_YES
        } else {
            BOOL_NO
        }
    }

    /// The host text that native memory holds: the null-terminated text at the
    /// start of `memory`, read as UTF-8.
    pub open spec fn owned_text(memory: Seq<u8>) -> Seq<char> {
        utf8_lossy(text_of(memory))
    }

    /// Reads the null-terminated text at the start of `in_str` as UTF-8. Bytes
    /// that are not valid UTF-8 become replacement characters.
    pub fn c_str_to_owned(in_str: &[u8]) -> (text: String)
        ensures
            text@ == Self::owned_text(in_str@),
            valid_utf8(text_of(in_str@)) ==> text@ == decode_utf8(text_of(in_str@)),
    {
        let end = text_end(in_str);
        proof {
            lemma_text_len(in_str@, end as int);
        }
        from_utf8_lossy(slice_subrange(in_str, 0, end))
    }

    /// Writes a host boolean as a native boolean: `yes` for true, `no` for false.
    pub fn bool_to_tidy_bool(bool_in: bool) -> (flag: Bool)
        ensures
            flag == Self::native_bool(bool_in),
    {
        if bool_in {
            BOOL_YES
        } else {
            BOOL_NO
        }
    }

    /// Reads a native boolean: only `yes` is true.
    pub fn tidy_bool_to_bool(tidy_bool_in: Bool) -> (value: bool)
        ensures
            value == (tidy_bool_in == BOOL_YES),
    {
        tidy_bool_in == BOOL_YES
    }

    /// The rendered document: the text in the result buffer, or `None` while the
    /// buffer has no contents, which is so until a save into the buffer has been
    /// recorded.
    pub fn output_as_vector(tidy: &Tidy) -> (output: Option<Vec<u8>>)
        ensures
            output is Some <==> tidy@.output.has_contents(),
            output matches Some(bytes) ==> tidy@.output.text() == Some(bytes@),
    {
        tidy.output().to_text()
    }

    /// The diagnostics collected so far: the text in the error buffer, empty while
    /// the buffer has no contents.
    pub fn errbuf_as_string(tidy: &Tidy) -> (text: String)
        ensures
            text@ == match tidy@.errbuf.bp {
                Some(memory) => Self::owned_text(memory),
                None => Seq::<char>::empty(),
            },
    {
        match &tidy.errbuf().bp {
            Some(memory) => Self::c_str_to_owned(memory.as_slice()),
            None => String::new(),
        }
    }
}

/// Writing a host boolean and reading it back gives the same boolean.
pub proof fn lemma_bool_round_trip(value: bool)
    ensures
        (TidyUtil::native_bool(value) == BOOL_YES) == value,
{
}

} // verus!
