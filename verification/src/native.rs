//! Plain values that stand for what the native library hands out: its boolean,
//! its handles and its growable byte buffer.

use crate::text::{lemma_text_len, text_end, text_of};
use libc::c_uint;
use vstd::prelude::*;
use vstd::slice::{slice_subrange, slice_to_vec};

verus! {

/// The native boolean. Only `BOOL_YES` stands for true.
pub type Bool = c_uint;

/// The native `no`.
pub const BOOL_NO: Bool = 0;

/// The native `yes`.
pub const BOOL_YES: Bool = 1;

/// The handle of one native document, held as the number that identifies it.
#[derive(Debug, Clone, Copy, PartialEq, Eq, Structural)]
pub struct TidyDoc {
    pub raw: usize,
}

/// The handle of one configuration entry of a document. It is valid as long as
/// the document that handed it out.
#[derive(Debug, Clone, Copy, PartialEq, Eq, Structural)]
pub struct TidyOption {
    pub raw: usize,
}

/// The number of a configuration entry in the native library's enumeration.
#[derive(Debug, Clone, Copy, PartialEq, Eq, Structural)]
pub struct TidyOptionId {
    pub raw: c_uint,
}

/// Which of the two output buffers of a facade.
#[derive(Debug, Clone, Copy, PartialEq, Eq, Structural)]
pub enum BufferId {
    /// The buffer that collects diagnostics.
    Errbuf,
    /// The buffer that receives the rendered document.
    Output,
}

/// Image of a native output buffer: what its fields held when it was last looked at.
///
/// `bp` is `None` while the native library has allocated no contents, and else
/// holds the allocated bytes.
#[derive(Debug, PartialEq, Eq)]
pub struct TidyBuffer {
    pub bp: Option<Vec<u8>>,
    pub size: c_uint,
    pub allocated: c_uint,
    pub next: c_uint,
}

/// Mathematical value of a [`TidyBuffer`].
pub struct TidyBufferView {
    pub bp: Option<Seq<u8>>,
    pub size: c_uint,
    pub allocated: c_uint,
    pub next: c_uint,
}

impl TidyBufferView {
    /// The buffer as it is before the native library has written to it.
    pub open spec fn zeroed() -> TidyBufferView {
        TidyBufferView { bp: None, size: 0, allocated: 0, next: 0 }
    }

    /// Whether the native library has allocated contents for the buffer.
    pub open spec fn has_contents(self) -> bool {
        self.bp is Some
    }

    /// The null-terminated text that the buffer holds, if it has contents.
    pub open spec fn text(self) -> Option<Seq<u8>> {
        match self.bp {
            Some(bytes) => Some(text_of(bytes)),
            None => None,
        }
    }
}

impl View for TidyBuffer {
    type V = TidyBufferView;

    open spec fn view(&self) -> TidyBufferView {
        TidyBufferView {
            bp: match self.bp {
                Some(bytes) => Some(bytes@),
                None => None,
            },
            size: self.size,
            allocated: self.allocated,
            next: self.next,
        }
    }
}

impl TidyBuffer {

    /// Whether the contents pointer of the buffer is null.
    pub fn is_null(&self) -> (null: bool)
        ensures
            null == !self@.has_contents(),
    {
        self.bp.is_none()
    }

    /// The null-terminated text that the buffer holds, or `None` if its contents
    /// pointer is null.
    pub fn to_text(&self) -> (text: Option<Vec<u8>>)
        ensures
            text is Some <==> self@.has_contents(),
            text matches Some(t) ==> self@.text() == Some(t@),
    {
        match &self.bp {
            Some(bytes) => {
                let end = text_end(bytes.as_slice());
                proof {
                    lemma_text_len(bytes@, end as int);
                }
                Some(slice_to_vec(slice_subrange(bytes.as_slice(), 0, end)))
            },
            None => None,
        }
    }
}

impl Default for TidyBuffer {
    /// The zero-valued buffer, as it is allocated before the native library sees it.
    fn default() -> (buffer: TidyBuffer)
        ensures
            buffer@ == TidyBufferView::zeroed(),
    {
        TidyBuffer { bp: None, size: 0, allocated: 0, next: 0 }
    }
}

impl Clone for TidyBuffer {
    fn clone(&self) -> (copy: TidyBuffer)
        ensures
            copy@ == self@,
    {
        let bp = match &self.bp {
            Some(bytes) => {
                let copied = bytes.clone();
                proof {
                    assert(copied@ =~= bytes@);
                }
                Some(copied)
            },
            None => None,
        };
        TidyBuffer { bp, size: self.size, allocated: self.allocated, next: self.next }
    }
}

} // verus!
