//! The native entry points, each with its marshalled arguments, and the
//! translation of what they return.
//!
//! A call is a value: the facade decides which call is to be made and with what,
//! the caller makes it, and the call says what the native answer means.

use crate::error::{result_view, TidyError, TidyErrorKind, TidyErrorView};
use crate::native::{Bool, BufferId, TidyDoc, TidyOption, TidyOptionId, BOOL_YES};
use crate::severity::TidySeverity;
use crate::text::CText;
use libc::{c_int, c_ulong};
use vstd::prelude::*;

verus! {

/// A native call that returns a status code: 0, 1 or 2 for a call that came to an
/// end, anything else for one that failed.
#[derive(Debug, Clone, PartialEq, Eq)]
pub enum StatusCall {
    /// Set the input and output character encoding to the named one.
    SetCharEncoding(CText),
    /// Set the input character encoding to the named one.
    SetInCharEncoding(CText),
    /// Set the output character encoding to the named one.
    SetOutCharEncoding(CText),
    /// Load the configuration file at the given path.
    LoadConfig(CText),
    /// Parse the given markup.
    ParseString(CText),
    /// Parse the file at the given path.
    ParseFile(CText),
    /// Parse the standard input.
    ParseStdin,
    /// Clean and repair the parsed markup.
    CleanAndRepair,
    /// Report on the cleaned markup; to be made after `CleanAndRepair`.
    RunDiagnostics,
    /// Render the document into the result buffer.
    SaveBuffer,
    /// Render the document into the file at the given path.
    SaveFile(CText),
    /// Render the document to the standard output.
    SaveStdout,
    /// Write the options that differ from their defaults to the file at the given path.
    OptSaveFile(CText),
}

impl StatusCall {
    /// The message of the failure of this call.
    pub open spec fn error_text(&self) -> Seq<char> {
        match self {
            StatusCall::SetCharEncoding(_) => "Tidy set char encoding error"@,
            StatusCall::SetInCharEncoding(_) => "Tidy set in char encoding error"@,
            StatusCall::SetOutCharEncoding(_) => "Tidy set out char encoding error"@,
            StatusCall::LoadConfig(_) => "Tidy load config error"@,
            StatusCall::ParseString(_) => "Tidy parse string error"@,
            StatusCall::ParseFile(_) => "Tidy parse file error"@,
            StatusCall::ParseStdin => "Tidy parse stdin error"@,
            StatusCall::CleanAndRepair => "Tidy clean and repair error"@,
            StatusCall::RunDiagnostics => "Tidy run diagnostics error"@,
            StatusCall::SaveBuffer => "Tidy save buffer error"@,
            StatusCall::SaveFile(_) => "Tidy save file error"@,
            StatusCall::SaveStdout => "Tidy save stdout error"@,
            StatusCall::OptSaveFile(_) => "Tidy save option file error"@,
        }
    }

    /// What a status code means for this call: 0, 1 and 2 are the severity of a
    /// call that came to an end, any other code is the failure of the call.
    pub open spec fn outcome_of(&self, code: int) -> Result<TidySeverity, TidyErrorView> {
        if 0 <= code <= 2 {
            Ok(TidySeverity::of_status(code))
        } else {
            Err(TidyError::failure(TidyErrorKind::Operation, self.error_text()))
        }
    }

    /// The message of the failure of this call.
    pub fn error_message(&self) -> (message: &'static str)
        ensures
            message@ == self.error_text(),
    {
        match self {
            StatusCall::SetCharEncoding(_) => "Tidy set char encoding error",
            StatusCall::SetInCharEncoding(_) => "Tidy set in char encoding error",
            StatusCall::SetOutCharEncoding(_) => "Tidy set out char encoding error",
            StatusCall::LoadConfig(_) => "Tidy load config error",
            StatusCall::ParseString(_) => "Tidy parse string error",
            StatusCall::ParseFile(_) => "Tidy parse file error",
            StatusCall::ParseStdin => "Tidy parse stdin error",
            StatusCall::CleanAndRepair => "Tidy clean and repair error",
            StatusCall::RunDiagnostics => "Tidy run diagnostics error",
            StatusCall::SaveBuffer => "Tidy save buffer error",
            StatusCall::SaveFile(_) => "Tidy save file error",
            StatusCall::SaveStdout => "Tidy save stdout error",
            StatusCall::OptSaveFile(_) => "Tidy save option file error",
        }
    }

    /// Translates the status code that the native library returned for this call.
    ///
    /// `Warning` and `Error` are results, not failures: they say that the markup
    /// had issues. Only a code outside 0, 1 and 2 is a failure.
    pub fn outcome(&self, code: c_int) -> (outcome: Result<TidySeverity, TidyError>)
        ensures
            result_view(outcome) == self.outcome_of(code as int),
    {
        if 0 <= code && code <= 2 {
            Ok(TidySeverity::from_status(code))
        } else {
            Err(TidyError::new(TidyErrorKind::Operation, self.error_message()))
        }
    }
}

/// A document whose markup has issues is no failure: a status call fails exactly
/// on a code outside 0, 1 and 2, its failure is a severe failure of the operation
/// that carries the message of the call, and the codes 0, 1 and 2 are reported as
/// `Success`, `Warning` and `Error`.
pub proof fn lemma_status_outcome(call: StatusCall, code: int)
    ensures
        call.outcome_of(code) is Err <==> !(0 <= code <= 2),
        call.outcome_of(code) matches Err(e) ==> e.kind == TidyErrorKind::Operation && e.severity
            == TidySeverity::Severe && e.message == call.error_text(),
        call.outcome_of(0) == Ok::<TidySeverity, TidyErrorView>(TidySeverity::Success),
        call.outcome_of(1) == Ok::<TidySeverity, TidyErrorView>(TidySeverity::Warning),
        call.outcome_of(2) == Ok::<TidySeverity, TidyErrorView>(TidySeverity::Error),
        call.outcome_of(code) matches Ok(severity) ==> severity != TidySeverity::Severe,
{
}

/// A configuration call succeeds exactly on the native `yes`; on anything else it
/// fails severely, with the message of the call.
pub proof fn lemma_config_outcome(call: ConfigCall, flag: Bool)
    ensures
        call.outcome_of(flag) is Ok <==> flag == BOOL_YES,
        call.outcome_of(flag) matches Ok(severity) ==> severity == TidySeverity::Success,
        call.outcome_of(flag) matches Err(e) ==> e.kind == call.error_kind() && e.severity
            == TidySeverity::Severe && e.message == call.error_text(),
{
}

/// A native call that changes the configuration and answers `yes` when it has
/// done so.
#[derive(Debug, Clone, PartialEq, Eq)]
pub enum ConfigCall {
    /// Set the boolean option to the given native boolean.
    OptSetBool(TidyOptionId, Bool),
    /// Set the integer option to the given number.
    OptSetInt(TidyOptionId, c_ulong),
    /// Set the string option to the given text.
    OptSetValue(TidyOptionId, CText),
    /// Set the option of the given name from the given text, whatever its type.
    OptParseValue(CText, CText),
    /// Keep the current configuration as the snapshot of the document.
    OptSnapshot,
    /// Set the configuration back to the snapshot.
    OptResetToSnapshot,
    /// Set the option back to its default.
    OptResetToDefault(TidyOptionId),
    /// Set every option back to its default.
    OptResetAllToDefault,
    /// Copy the configuration onto the given document, which first keeps its own
    /// configuration as its snapshot.
    OptCopyConfig(TidyDoc),
}

impl ConfigCall {
    /// The kind of the failure of this call: the three setters of an option by
    /// its number fail as `OptionSet`, the others as `Operation`.
    pub open spec fn error_kind(&self) -> TidyErrorKind {
        match self {
            ConfigCall::OptSetBool(_, _) => TidyErrorKind::OptionSet,
            ConfigCall::OptSetInt(_, _) => TidyErrorKind::OptionSet,
            ConfigCall::OptSetValue(_, _) => TidyErrorKind::OptionSet,
            _ => TidyErrorKind::Operation,
        }
    }

    /// The message of the failure of this call.
    pub open spec fn error_text(&self) -> Seq<char> {
        match self {
            ConfigCall::OptSetBool(_, _) => "Tidy  option set bool error"@,
            ConfigCall::OptSetInt(_, _) => "Tidy option set int error"@,
            ConfigCall::OptSetValue(_, _) => "Tidy option set value error"@,
            ConfigCall::OptParseValue(_, _) => "Tidy option parse value error"@,
            ConfigCall::OptSnapshot => "Tidy option snapshot error"@,
            ConfigCall::OptResetToSnapshot => "Tidy reset to snapshot error"@,
            ConfigCall::OptResetToDefault(_) => "Tidy reset to default error"@,
            ConfigCall::OptResetAllToDefault => "Tidy reset to default error"@,
            ConfigCall::OptCopyConfig(_) => "Tidy copy config error"@,
        }
    }

    /// What the native boolean means for this call: `yes` is success, anything
    /// else is the failure of the call.
    pub open spec fn outcome_of(&self, flag: Bool) -> Result<TidySeverity, TidyErrorView> {
        if flag == BOOL_YES {
            Ok(TidySeverity::Success)
        } else {
            Err(TidyError::failure(self.error_kind(), self.error_text()))
        }
    }

    /// The kind of the failure of this call.
    pub fn failure_kind(&self) -> (kind: TidyErrorKind)
        ensures
            kind == self.error_kind(),
    {
        match self {
            ConfigCall::OptSetBool(_, _) => TidyErrorKind::OptionSet,
            ConfigCall::OptSetInt(_, _) => TidyErrorKind::OptionSet,
            ConfigCall::OptSetValue(_, _) => TidyErrorKind::OptionSet,
            _ => TidyErrorKind::Operation,
        }
    }

    /// The message of the failure of this call.
    pub fn error_message(&self) -> (message: &'static str)
        ensures
            message@ == self.error_text(),
    {
        match self {
            ConfigCall::OptSetBool(_, _) => "Tidy  option set bool error",
            ConfigCall::OptSetInt(_, _) => "Tidy option set int error",
            ConfigCall::OptSetValue(_, _) => "Tidy option set value error",
            ConfigCall::OptParseValue(_, _) => "Tidy option parse value error",
            ConfigCall::OptSnapshot => "Tidy option snapshot error",
            ConfigCall::OptResetToSnapshot => "Tidy reset to snapshot error",
            ConfigCall::OptResetToDefault(_) => "Tidy reset to default error",
            ConfigCall::OptResetAllToDefault => "Tidy reset to default error",
            ConfigCall::OptCopyConfig(_) => "Tidy copy config error",
        }
    }

    /// Translates the native boolean that the native library returned for this call.
    pub fn outcome(&self, flag: Bool) -> (outcome: Result<TidySeverity, TidyError>)
        ensures
            result_view(outcome) == self.outcome_of(flag),
    {
        if flag == BOOL_YES {
            Ok(TidySeverity::Success)
        } else {
            Err(TidyError::new(self.failure_kind(), self.error_message()))
        }
    }
}

/// A native call that reads from the document or reports into its error sink. It
/// has no failure of its own: what it returns is the answer.
#[derive(Debug, Clone, PartialEq, Eq)]
pub enum QueryCall {
    /// The status of the document, as a status code.
    Status,
    /// Write the detected doctype to the error sink; returns a status code.
    ReportDoctype,
    /// Write the summary of errors to the error sink.
    ErrorSummary,
    /// Write general information to the error sink.
    GeneralInfo,
    /// The number of accessibility warnings.
    AccessWarningCount,
    /// The number of configuration errors.
    ConfigErrorCount,
    /// The number of errors.
    ErrorCount,
    /// The number of warnings.
    WarningCount,
    /// The HTML version of the output, times 100.
    DetectedHtmlVersion,
    /// Whether the input was generic XML; a native boolean.
    DetectedGenericXml,
    /// Whether the output is XHTML; a native boolean.
    DetectedXhtml,
    /// Whether the configuration differs from the defaults; a native boolean.
    OptDiffThanDefault,
    /// Whether the configuration differs from the snapshot; a native boolean.
    OptDiffThanSnapshot,
    /// The current value of the boolean option; a native boolean.
    OptGetBool(TidyOptionId),
    /// The current value of the integer option.
    OptGetInt(TidyOptionId),
    /// The current value of the string option; a text.
    OptGetValue(TidyOptionId),
    /// The name of the encoding that the option holds; a text.
    OptGetEncName(TidyOptionId),
    /// The description of the option; a text.
    OptGetDoc(TidyOption),
    /// The option of the given number.
    GetOption(TidyOptionId),
    /// The option of the given name.
    GetOptionByName(CText),
    /// The version of the native library; a text.
    LibraryVersion,
    /// The release date of the native library; a text.
    ReleaseDate,
    /// The number of the option of the given name.
    OptGetIdForName(CText),
    /// The number of the option.
    OptGetId(TidyOption),
    /// The name of the option; a text.
    OptGetName(TidyOption),
    /// The type of the option.
    OptGetType(TidyOption),
    /// The category of the option.
    OptGetCategory(TidyOption),
    /// The default of the option; a text.
    OptGetDefault(TidyOption),
    /// The default of the boolean option; a native boolean.
    OptGetDefaultBool(TidyOption),
    /// The default of the integer option.
    OptGetDefaultInt(TidyOption),
}

/// One step of the release of the native resources of a facade.
#[derive(Debug, Clone, Copy, PartialEq, Eq, Structural)]
pub enum ReleaseCall {
    /// Have the native library free the contents of the buffer.
    BufFree(BufferId),
    /// Free the memory of the buffer itself.
    FreeBuffer(BufferId),
    /// Have the native library release the document.
    Release(TidyDoc),
}

} // verus!
