//! The structured failure that every operation of the facade reports.

use crate::severity::TidySeverity;
use vstd::prelude::*;

verus! {

/// What went wrong, by the stage at which it went wrong.
#[derive(Debug, Clone, Copy, PartialEq, Eq, Structural)]
pub enum TidyErrorKind {
    /// The error buffer could not be registered while the facade was constructed.
    Init,
    /// A native call reported a status outside 0, 1 and 2, or did not answer `yes`.
    Operation,
    /// The native library did not accept the value that an option was to be set to.
    OptionSet,
    /// A text could not be given the null-terminated form; no native call was made.
    Marshal,
    /// The facade has been disposed of; no native call was made.
    Released,
}

/// Mathematical value of a [`TidyError`].
pub struct TidyErrorView {
    pub kind: TidyErrorKind,
    pub severity: TidySeverity,
    pub message: Seq<char>,
}

/// A failure: its kind, its severity and a message for people.
#[derive(Debug, Clone, PartialEq, Eq)]
pub struct TidyError {
    kind: TidyErrorKind,
    severity: TidySeverity,
    message: String,
}

impl View for TidyError {
    type V = TidyErrorView;

    closed spec fn view(&self) -> TidyErrorView {
        TidyErrorView { kind: self.kind, severity: self.severity, message: self.message@ }
    }
}

/// The value of a result whose failure is a [`TidyError`].
pub open spec fn result_view<T>(result: Result<T, TidyError>) -> Result<T, TidyErrorView> {
    match result {
        Ok(value) => Ok(value),
        Err(error) => Err(error@),
    }
}

impl TidyError {
    /// The value of a failure of the given kind: failures are always `Severe`.
    pub open spec fn failure(kind: TidyErrorKind, message: Seq<char>) -> TidyErrorView {
        TidyErrorView { kind, severity: TidySeverity::Severe, message }
    }

    /// Message of the failure to register the error buffer.
    pub open spec fn init_text() -> Seq<char> {
        "Tidy set errorbuffer error"@
    }

    /// Message of the failure to put a text into null-terminated form.
    pub open spec fn marshal_text() -> Seq<char> {
        "Tidy text contains a null byte"@
    }

    /// Message of an operation asked of a facade that was disposed of.
    pub open spec fn released_text() -> Seq<char> {
        "Tidy document already released"@
    }

    /// A severe failure of the given kind with the given message.
    pub fn new(kind: TidyErrorKind, message: &str) -> (error: TidyError)
        ensures
            error@ == Self::failure(kind, message@),
    {
        TidyError { kind, severity: TidySeverity::Severe, message: String::from_str(message) }
    }

    /// The failure to register the error buffer during construction.
    pub fn init() -> (error: TidyError)
        ensures
            error@ == Self::failure(TidyErrorKind::Init, Self::init_text()),
    {
        Self::new(TidyErrorKind::Init, "Tidy set errorbuffer error")
    }

    /// The failure to marshal a text that holds a null byte.
    pub fn marshal() -> (error: TidyError)
        ensures
            error@ == Self::failure(TidyErrorKind::Marshal, Self::marshal_text()),
    {
        Self::new(TidyErrorKind::Marshal, "Tidy text contains a null byte")
    }

    /// The failure of an operation on a facade that was disposed of.
    pub fn released() -> (error: TidyError)
        ensures
            error@ == Self::failure(TidyErrorKind::Released, Self::released_text()),
    {
        Self::new(TidyErrorKind::Released, "Tidy document already released")
    }

    /// The kind of the failure.
    pub fn kind(&self) -> (kind: TidyErrorKind)
        ensures
            kind == self@.kind,
    {
        self.kind
    }

    /// The severity of the failure.
    pub fn severity(&self) -> (severity: TidySeverity)
        ensures
            severity == self@.severity,
    {
        self.severity
    }

    /// The message of the failure.
    pub fn message(&self) -> (message: &str)
        ensures
            message@ == self@.message,
    {
        self.message.as_str()
    }

    /// The printed form of the failure, which is its message.
    pub fn to_string(&self) -> (text: String)
        ensures
            text@ == self@.message,
    {
        self.message.clone()
    }
}

} // verus!
