//! Verified core of a safe facade over the HTML Tidy native library.
//!
//! The native library is reached through a foreign-function interface, which
//! cannot be called from verified code. This crate holds every decision that
//! surrounds such a call: it marshals the arguments, says which native entry
//! point is to be called, translates what the entry point returned, and plans
//! the release of the native resources. The caller performs the calls.

pub mod call;
pub mod document;
pub mod error;
pub mod native;
pub mod severity;
pub mod text;
pub mod util;

pub use call::{ConfigCall, QueryCall, ReleaseCall, StatusCall};
pub use document::{Tidy, TidyInitFailure, TidyView};
pub use error::{TidyError, TidyErrorKind, TidyErrorView};
pub use native::{
    Bool, BufferId, TidyBuffer, TidyBufferView, TidyDoc, TidyOption, TidyOptionId, BOOL_NO, BOOL_YES,
};
pub use severity::TidySeverity;
pub use text::CText;
pub use util::TidyUtil;
