//! The document facade: one native document, its error buffer and its result
//! buffer, from construction to release.
//!
//! The facade makes no native call. Each operation either fails before any
//! native call, or names the call that the caller is to make. What the call
//! returned is translated by the call itself (`StatusCall::outcome`,
//! `ConfigCall::outcome`) or, where the facade has to remember something, by
//! the facade.

use crate::call::{ConfigCall, QueryCall, ReleaseCall, StatusCall};
use crate::error::{result_view, TidyError, TidyErrorKind, TidyErrorView};
use crate::native::{BufferId, TidyBuffer, TidyBufferView, TidyDoc, TidyOption, TidyOptionId};
use crate::severity::TidySeverity;
use crate::text::{has_nul, lemma_has_nul_concat, CText};
use crate::util::TidyUtil;
use libc::{c_int, c_ulong};
use vstd::prelude::*;
use vstd::utf8::encode_utf8;

verus! {

/// Mathematical value of a [`Tidy`].
pub struct TidyView {
    /// Image of the error buffer.
    pub errbuf: TidyBufferView,
    /// Image of the result buffer.
    pub output: TidyBufferView,
    /// The native document that the facade owns.
    pub tdoc: TidyDoc,
    /// Whether the native resources have been released.
    pub released: bool,
}

impl TidyView {
    /// The facade right after construction: both buffers zero-valued, nothing released.
    pub open spec fn fresh(tdoc: TidyDoc) -> TidyView {
        TidyView {
            errbuf: TidyBufferView::zeroed(),
            output: TidyBufferView::zeroed(),
            tdoc,
            released: false,
        }
    }

    /// The facade after its release: the buffers are gone.
    pub open spec fn disposed(self) -> TidyView {
        TidyView {
            errbuf: TidyBufferView::zeroed(),
            output: TidyBufferView::zeroed(),
            tdoc: self.tdoc,
            released: true,
        }
    }

    /// The steps that release one buffer: its contents through the native
    /// library if it has any, then its own memory.
    pub open spec fn buffer_release(buffer: TidyBufferView, id: BufferId) -> Seq<ReleaseCall> {
        if buffer.has_contents() {
            seq![ReleaseCall::BufFree(id), ReleaseCall::FreeBuffer(id)]
        } else {
            seq![ReleaseCall::FreeBuffer(id)]
        }
    }

    /// The steps that release the native resources, in the order in which they
    /// are to be made: the error buffer, the result buffer, and the document last,
    /// since the error buffer is registered with it until then. Nothing is left to
    /// release once the facade is released.
    pub open spec fn release_plan(self) -> Seq<ReleaseCall> {
        if self.released {
            Seq::empty()
        } else {
            Self::buffer_release(self.errbuf, BufferId::Errbuf) + Self::buffer_release(
                self.output,
                BufferId::Output,
            ) + seq![ReleaseCall::Release(self.tdoc)]
        }
    }

    /// The facade after a save into the result buffer was recorded: the image of
    /// the result buffer is the recorded one. A released facade records nothing.
    pub open spec fn saved(self, output: TidyBufferView) -> TidyView {
        if self.released {
            self
        } else {
            TidyView { output, ..self }
        }
    }

    /// The facade after a look at the error buffer was recorded. A released
    /// facade records nothing.
    pub open spec fn observed(self, errbuf: TidyBufferView) -> TidyView {
        if self.released {
            self
        } else {
            TidyView { errbuf, ..self }
        }
    }

    /// The failure that keeps an operation with the given marshalled text from
    /// reaching the native library, if there is one: the facade is released, or
    /// the text holds a null byte.
    pub open spec fn refusal(self, text: Seq<u8>) -> Option<TidyErrorView> {
        if self.released {
            Some(TidyError::failure(TidyErrorKind::Released, TidyError::released_text()))
        } else if has_nul(text) {
            Some(TidyError::failure(TidyErrorKind::Marshal, TidyError::marshal_text()))
        } else {
            None
        }
    }

    /// The failure that keeps an operation without text from reaching the native
    /// library, if there is one: the facade is released.
    pub open spec fn gate(self) -> Option<TidyErrorView> {
        if self.released {
            Some(TidyError::failure(TidyErrorKind::Released, TidyError::released_text()))
        } else {
            None
        }
    }
}

/// The failure of a construction: the error, and the steps that release what
/// had been allocated for the facade.
#[derive(Debug)]
pub struct TidyInitFailure {
    pub error: TidyError,
    pub release: Vec<ReleaseCall>,
}

/// The facade over one native document and its two output buffers.
#[derive(Debug)]
pub struct Tidy {
    errbuf: TidyBuffer,
    output: TidyBuffer,
    tdoc: TidyDoc,
    released: bool,
}

impl View for Tidy {
    type V = TidyView;

    closed spec fn view(&self) -> TidyView {
        TidyView {
            errbuf: self.errbuf@,
            output: self.output@,
            tdoc: self.tdoc,
            released: self.released,
        }
    }
}

/// The steps that release one buffer.
fn buffer_release(buffer: &TidyBuffer, id: BufferId, plan: &mut Vec<ReleaseCall>)
    ensures
        final(plan)@ == old(plan)@ + TidyView::buffer_release(buffer@, id),
{
    if !buffer.is_null() {
        plan.push(ReleaseCall::BufFree(id));
    }
    plan.push(ReleaseCall::FreeBuffer(id));
}

impl Tidy {
    /// Completes the construction of a facade.
    ///
    /// The caller has allocated two zero-valued buffers, has had the native
    /// library create the document `tdoc`, and has registered the error buffer
    /// with it; `code` is what the registration returned. The facade exists only
    /// if the registration succeeded. If it did not, the failure says how to
    /// release what was allocated.
    pub fn new(tdoc: TidyDoc, code: c_int) -> (tidy: Result<Tidy, TidyInitFailure>)
        ensures
            tidy is Ok <==> code == 0,
            tidy matches Ok(t) ==> t@ == TidyView::fresh(tdoc),
            tidy matches Err(failure) ==> {
                &&& failure.error@ == TidyError::failure(
                    TidyErrorKind::Init,
                    TidyError::init_text(),
                )
                &&& failure.release@ == TidyView::fresh(tdoc).release_plan()
            },
    {
        let mut tidy = Tidy {
            errbuf: TidyBuffer::default(),
            output: TidyBuffer::default(),
            tdoc,
            released: false,
        };
        if code == 0 {
            Ok(tidy)
        } else {
            let release = tidy.dispose();
            Err(TidyInitFailure { error: TidyError::init(), release })
        }
    }

    /// Releases the native resources: returns the steps that the caller is to
    /// make, in order, and marks the facade as released. On a facade that is
    /// released already there is nothing to do.
    pub fn dispose(&mut self) -> (plan: Vec<ReleaseCall>)
        ensures
            plan@ == old(self)@.release_plan(),
            final(self)@ == old(self)@.disposed(),
    {
        let mut plan: Vec<ReleaseCall> = Vec::new();
        if !self.released {
            buffer_release(&self.errbuf, BufferId::Errbuf, &mut plan);
            buffer_release(&self.output, BufferId::Output, &mut plan);
            plan.push(ReleaseCall::Release(self.tdoc));
        }
        self.errbuf = TidyBuffer::default();
        self.output = TidyBuffer::default();
        self.released = true;
        plan
    }

    /// Whether the native resources are still held.
    pub fn is_live(&self) -> (live: bool)
        ensures
            live == !self@.released,
    {
        !self.released
    }

    /// The native document that the facade owns.
    pub fn tdoc(&self) -> (tdoc: TidyDoc)
        ensures
            tdoc == self@.tdoc,
    {
        self.tdoc
    }

    /// Image of the error buffer.
    pub fn errbuf(&self) -> (errbuf: &TidyBuffer)
        ensures
            errbuf@ == self@.errbuf,
    {
        &self.errbuf
    }

    /// Image of the result buffer.
    pub fn output(&self) -> (output: &TidyBuffer)
        ensures
            output@ == self@.output,
    {
        &self.output
    }

    /// The failure of an operation on a released facade, if the facade is released.
    fn check_live(&self) -> (live: Result<(), TidyError>)
        ensures
            match live {
                Ok(_) => self@.gate() is None,
                Err(e) => self@.gate() == Some(e@),
            },
    {
        if self.released {
            Err(TidyError::released())
        } else {
            Ok(())
        }
    }

    /// Puts the bytes of an argument into null-terminated form, unless the
    /// facade is released.
    fn marshal_bytes(&self, content: Vec<u8>) -> (text: Result<CText, TidyError>)
        ensures
            match text {
                Ok(t) => self@.refusal(content@) is None && t@ == content@,
                Err(e) => self@.refusal(content@) == Some(e@),
            },
    {
        match self.check_live() {
            Ok(()) => CText::new(content),
            Err(error) => Err(error),
        }
    }

    /// Puts a text argument into null-terminated form, unless the facade is released.
    fn marshal(&self, text: &str) -> (marshalled: Result<CText, TidyError>)
        ensures
            match marshalled {
                Ok(t) => self@.refusal(encode_utf8(text@)) is None && t@ == encode_utf8(text@),
                Err(e) => self@.refusal(encode_utf8(text@)) == Some(e@),
            },
    {
        match self.check_live() {
            Ok(()) => CText::from_str(text),
            Err(error) => Err(error),
        }
    }

    // Parsing

    /// Parse the markup in `content`. The native interface reads null-terminated
    /// text, so `content` must hold no null byte: if it does, the operation fails
    /// before any native call.
    pub fn parse_string(&self, content: Vec<u8>) -> (call: Result<StatusCall, TidyError>)
        ensures
            match call {
                Ok(c) => {
                    &&& self@.refusal(content@) is None
                    &&& c matches StatusCall::ParseString(t)
                    &&& t@ == content@
                },
                Err(e) => self@.refusal(content@) == Some(e@),
            },
            !self@.released && has_nul(content@) ==> (call matches Err(e) && e@.kind
                == TidyErrorKind::Marshal),
    {
        match self.marshal_bytes(content) {
            Ok(text) => Ok(StatusCall::ParseString(text)),
            Err(error) => Err(error),
        }
    }

    /// Parse the markup in the named file.
    pub fn parse_file(&self, filename: &str) -> (call: Result<StatusCall, TidyError>)
        ensures
            match call {
                Ok(c) => {
                    &&& self@.refusal(encode_utf8(filename@)) is None
                    &&& c matches StatusCall::ParseFile(t)
                    &&& t@ == encode_utf8(filename@)
                },
                Err(e) => self@.refusal(encode_utf8(filename@)) == Some(e@),
            },
    {
        match self.marshal(filename) {
            Ok(text) => Ok(StatusCall::ParseFile(text)),
            Err(error) => Err(error),
        }
    }

    /// Parse the markup on the standard input.
    pub fn parse_stdin(&self) -> (call: Result<StatusCall, TidyError>)
        ensures
            match call {
                Ok(c) => self@.gate() is None && c == StatusCall::ParseStdin,
                Err(e) => self@.gate() == Some(e@),
            },
    {
        match self.check_live() {
            Ok(()) => Ok(StatusCall::ParseStdin),
            Err(error) => Err(error),
        }
    }

    // Repair and diagnostics

    /// Run the configured cleanup and repair on the parsed markup.
    pub fn clean_and_repair(&self) -> (call: Result<StatusCall, TidyError>)
        ensures
            match call {
                Ok(c) => self@.gate() is None && c == StatusCall::CleanAndRepair,
                Err(e) => self@.gate() == Some(e@),
            },
    {
        match self.check_live() {
            Ok(()) => Ok(StatusCall::CleanAndRepair),
            Err(error) => Err(error),
        }
    }

    /// Report the doctype and the statistics of the parsed and repaired markup. The
    /// native library wants `clean_and_repair` to have run before; the facade does
    /// not enforce the order.
    pub fn run_diagnostics(&self) -> (call: Result<StatusCall, TidyError>)
        ensures
            match call {
                Ok(c) => self@.gate() is None && c == StatusCall::RunDiagnostics,
                Err(e) => self@.gate() == Some(e@),
            },
    {
        match self.check_live() {
            Ok(()) => Ok(StatusCall::RunDiagnostics),
            Err(error) => Err(error),
        }
    }

    /// Write the detected doctype to the error sink. The status code that the call
    /// returns is read with `TidySeverity::from_status`.
    pub fn report_doctype(&self) -> (call: Result<QueryCall, TidyError>)
        ensures
            match call {
                Ok(c) => self@.gate() is None && c == QueryCall::ReportDoctype,
                Err(e) => self@.gate() == Some(e@),
            },
    {
        match self.check_live() {
            Ok(()) => Ok(QueryCall::ReportDoctype),
            Err(error) => Err(error),
        }
    }

    /// Write the summary of errors to the error sink.
    pub fn error_summary(&self) -> (call: Result<QueryCall, TidyError>)
        ensures
            match call {
                Ok(c) => self@.gate() is None && c == QueryCall::ErrorSummary,
                Err(e) => self@.gate() == Some(e@),
            },
    {
        match self.check_live() {
            Ok(()) => Ok(QueryCall::ErrorSummary),
            Err(error) => Err(error),
        }
    }

    /// Write general information to the error sink.
    pub fn general_info(&self) -> (call: Result<QueryCall, TidyError>)
        ensures
            match call {
                Ok(c) => self@.gate() is None && c == QueryCall::GeneralInfo,
                Err(e) => self@.gate() == Some(e@),
            },
    {
        match self.check_live() {
            Ok(()) => Ok(QueryCall::GeneralInfo),
            Err(error) => Err(error),
        }
    }

    // Saving

    /// Render the document into the result buffer. What the call returned is handed
    /// to `save_buffer_outcome`, together with the image of the buffer.
    pub fn save_buffer(&self) -> (call: Result<StatusCall, TidyError>)
        ensures
            match call {
                Ok(c) => self@.gate() is None && c == StatusCall::SaveBuffer,
                Err(e) => self@.gate() == Some(e@),
            },
    {
        match self.check_live() {
            Ok(()) => Ok(StatusCall::SaveBuffer),
            Err(error) => Err(error),
        }
    }

    /// Render the document into the named file.
    pub fn save_file(&self, filename: &str) -> (call: Result<StatusCall, TidyError>)
        ensures
            match call {
                Ok(c) => {
                    &&& self@.refusal(encode_utf8(filename@)) is None
                    &&& c matches StatusCall::SaveFile(t)
                    &&& t@ == encode_utf8(filename@)
                },
                Err(e) => self@.refusal(encode_utf8(filename@)) == Some(e@),
            },
    {
        match self.marshal(filename) {
            Ok(text) => Ok(StatusCall::SaveFile(text)),
            Err(error) => Err(error),
        }
    }

    /// Render the document to the standard output.
    pub fn save_stdout(&self) -> (call: Result<StatusCall, TidyError>)
        ensures
            match call {
                Ok(c) => self@.gate() is None && c == StatusCall::SaveStdout,
                Err(e) => self@.gate() == Some(e@),
            },
    {
        match self.check_live() {
            Ok(()) => Ok(StatusCall::SaveStdout),
            Err(error) => Err(error),
        }
    }

    /// Write the options that differ from their defaults to the named file.
    pub fn opt_save_file(&self, cfgfil: &str) -> (call: Result<StatusCall, TidyError>)
        ensures
            match call {
                Ok(c) => {
                    &&& self@.refusal(encode_utf8(cfgfil@)) is None
                    &&& c matches StatusCall::OptSaveFile(t)
                    &&& t@ == encode_utf8(cfgfil@)
                },
                Err(e) => self@.refusal(encode_utf8(cfgfil@)) == Some(e@),
            },
    {
        match self.marshal(cfgfil) {
            Ok(text) => Ok(StatusCall::OptSaveFile(text)),
            Err(error) => Err(error),
        }
    }

    /// Records the end of a `StatusCall::SaveBuffer`: `output` is the image of the
    /// result buffer after the call, `code` is what the call returned. This is the
    /// only way in which the result buffer of the facade gets contents.
    pub fn save_buffer_outcome(&mut self, code: c_int, output: TidyBuffer) -> (outcome: Result<
        TidySeverity,
        TidyError,
    >)
        ensures
            result_view(outcome) == StatusCall::SaveBuffer.outcome_of(code as int),
            final(self)@ == old(self)@.saved(output@),
    {
        if !self.released {
            self.output = output;
        }
        StatusCall::SaveBuffer.outcome(code)
    }

    /// Records the image of the error buffer, which the native library may have
    /// written to in any call.
    pub fn observe_errbuf(&mut self, errbuf: TidyBuffer)
        ensures
            final(self)@ == old(self)@.observed(errbuf@),
    {
        if !self.released {
            self.errbuf = errbuf;
        }
    }

    // Character encoding and configuration files

    /// Set the input and output character encoding to the named one.
    pub fn set_char_encoding(&self, encnam: &str) -> (call: Result<StatusCall, TidyError>)
        ensures
            match call {
                Ok(c) => {
                    &&& self@.refusal(encode_utf8(encnam@)) is None
                    &&& c matches StatusCall::SetCharEncoding(t)
                    &&& t@ == encode_utf8(encnam@)
                },
                Err(e) => self@.refusal(encode_utf8(encnam@)) == Some(e@),
            },
    {
        match self.marshal(encnam) {
            Ok(text) => Ok(StatusCall::SetCharEncoding(text)),
            Err(error) => Err(error),
        }
    }

    /// Set the input character encoding to the named one.
    pub fn set_in_char_encoding(&self, encnam: &str) -> (call: Result<StatusCall, TidyError>)
        ensures
            match call {
                Ok(c) => {
                    &&& self@.refusal(encode_utf8(encnam@)) is None
                    &&& c matches StatusCall::SetInCharEncoding(t)
                    &&& t@ == encode_utf8(encnam@)
                },
                Err(e) => self@.refusal(encode_utf8(encnam@)) == Some(e@),
            },
    {
        match self.marshal(encnam) {
            Ok(text) => Ok(StatusCall::SetInCharEncoding(text)),
            Err(error) => Err(error),
        }
    }

    /// Set the output character encoding to the named one.
    pub fn set_out_char_encoding(&self, encnam: &str) -> (call: Result<StatusCall, TidyError>)
        ensures
            match call {
                Ok(c) => {
                    &&& self@.refusal(encode_utf8(encnam@)) is None
                    &&& c matches StatusCall::SetOutCharEncoding(t)
                    &&& t@ == encode_utf8(encnam@)
                },
                Err(e) => self@.refusal(encode_utf8(encnam@)) == Some(e@),
            },
    {
        match self.marshal(encnam) {
            Ok(text) => Ok(StatusCall::SetOutCharEncoding(text)),
            Err(error) => Err(error),
        }
    }

    /// Load the named configuration file and set the configuration from it.
    pub fn load_config(&self, config_file: &str) -> (call: Result<StatusCall, TidyError>)
        ensures
            match call {
                Ok(c) => {
                    &&& self@.refusal(encode_utf8(config_file@)) is None
                    &&& c matches StatusCall::LoadConfig(t)
                    &&& t@ == encode_utf8(config_file@)
                },
                Err(e) => self@.refusal(encode_utf8(config_file@)) == Some(e@),
            },
    {
        match self.marshal(config_file) {
            Ok(text) => Ok(StatusCall::LoadConfig(text)),
            Err(error) => Err(error),
        }
    }

    // Setting options

    /// Set a boolean option.
    pub fn opt_set_bool(&self, optid: TidyOptionId, val: bool) -> (call: Result<
        ConfigCall,
        TidyError,
    >)
        ensures
            match call {
                Ok(c) => self@.gate() is None && c == ConfigCall::OptSetBool(
                    optid,
                    TidyUtil::native_bool(val),
                ),
                Err(e) => self@.gate() == Some(e@),
            },
    {
        match self.check_live() {
            Ok(()) => Ok(ConfigCall::OptSetBool(optid, TidyUtil::bool_to_tidy_bool(val))),
            Err(error) => Err(error),
        }
    }

    /// Set an integer option.
    pub fn opt_set_int(&self, optid: TidyOptionId, val: c_ulong) -> (call: Result<
        ConfigCall,
        TidyError,
    >)
        ensures
            match call {
                Ok(c) => self@.gate() is None && c == ConfigCall::OptSetInt(optid, val),
                Err(e) => self@.gate() == Some(e@),
            },
    {
        match self.check_live() {
            Ok(()) => Ok(ConfigCall::OptSetInt(optid, val)),
            Err(error) => Err(error),
        }
    }

    /// Set a string option.
    pub fn opt_set_value(&self, optid: TidyOptionId, val: &str) -> (call: Result<
        ConfigCall,
        TidyError,
    >)
        ensures
            match call {
                Ok(c) => {
                    &&& self@.refusal(encode_utf8(val@)) is None
                    &&& c matches ConfigCall::OptSetValue(id, t)
                    &&& id == optid
                    &&& t@ == encode_utf8(val@)
                },
                Err(e) => self@.refusal(encode_utf8(val@)) == Some(e@),
            },
    {
        match self.marshal(val) {
            Ok(text) => Ok(ConfigCall::OptSetValue(optid, text)),
            Err(error) => Err(error),
        }
    }

    /// Set the option of the given name from a text, whatever the type of the
    /// option. Fails before any native call if the name or the value holds a null
    /// byte.
    pub fn opt_parse_value(&self, optnam: &str, val: &str) -> (call: Result<
        ConfigCall,
        TidyError,
    >)
        ensures
            match call {
                Ok(c) => {
                    &&& self@.refusal(encode_utf8(optnam@) + encode_utf8(val@)) is None
                    &&& c matches ConfigCall::OptParseValue(name, value)
                    &&& name@ == encode_utf8( optnam@, )
                    &&& value@ == encode_utf8(val@)
                },
                Err(e) => self@.refusal(encode_utf8(optnam@) + encode_utf8(val@)) == Some(e@),
            },
    {
        proof {
            lemma_has_nul_concat(encode_utf8(optnam@), encode_utf8(val@));
        }
        match self.marshal(optnam) {
            Ok(name) => match self.marshal(val) {
                Ok(value) => Ok(ConfigCall::OptParseValue(name, value)),
                Err(error) => Err(error),
            },
            Err(error) => Err(error),
        }
    }

    // Snapshot, reset and copy

    /// Keep the current configuration as the snapshot of the document.
    pub fn opt_snapshot(&self) -> (call: Result<ConfigCall, TidyError>)
        ensures
            match call {
                Ok(c) => self@.gate() is None && c == ConfigCall::OptSnapshot,
                Err(e) => self@.gate() == Some(e@),
            },
    {
        match self.check_live() {
            Ok(()) => Ok(ConfigCall::OptSnapshot),
            Err(error) => Err(error),
        }
    }

    /// Set the configuration back to the snapshot.
    pub fn opt_reset_to_snapshot(&self) -> (call: Result<ConfigCall, TidyError>)
        ensures
            match call {
                Ok(c) => self@.gate() is None && c == ConfigCall::OptResetToSnapshot,
                Err(e) => self@.gate() == Some(e@),
            },
    {
        match self.check_live() {
            Ok(()) => Ok(ConfigCall::OptResetToSnapshot),
            Err(error) => Err(error),
        }
    }

    /// Set one option back to its default.
    pub fn opt_reset_to_default(&self, optid: TidyOptionId) -> (call: Result<ConfigCall, TidyError>)
        ensures
            match call {
                Ok(c) => self@.gate() is None && c == ConfigCall::OptResetToDefault(optid),
                Err(e) => self@.gate() == Some(e@),
            },
    {
        match self.check_live() {
            Ok(()) => Ok(ConfigCall::OptResetToDefault(optid)),
            Err(error) => Err(error),
        }
    }

    /// Set every option back to its default.
    pub fn opt_reset_all_to_default(&self) -> (call: Result<ConfigCall, TidyError>)
        ensures
            match call {
                Ok(c) => self@.gate() is None && c == ConfigCall::OptResetAllToDefault,
                Err(e) => self@.gate() == Some(e@),
            },
    {
        match self.check_live() {
            Ok(()) => Ok(ConfigCall::OptResetAllToDefault),
            Err(error) => Err(error),
        }
    }

    /// Copy the configuration onto another document. The native library first keeps
    /// the configuration of that document as its snapshot.
    pub fn opt_copy_config(&self, tdoc_to: TidyDoc) -> (call: Result<ConfigCall, TidyError>)
        ensures
            match call {
                Ok(c) => self@.gate() is None && c == ConfigCall::OptCopyConfig(tdoc_to),
                Err(e) => self@.gate() == Some(e@),
            },
    {
        match self.check_live() {
            Ok(()) => Ok(ConfigCall::OptCopyConfig(tdoc_to)),
            Err(error) => Err(error),
        }
    }

    /// Whether the configuration differs from the defaults.
    pub fn opt_diff_than_default(&self) -> (call: Result<QueryCall, TidyError>)
        ensures
            match call {
                Ok(c) => self@.gate() is None && c == QueryCall::OptDiffThanDefault,
                Err(e) => self@.gate() == Some(e@),
            },
    {
        match self.check_live() {
            Ok(()) => Ok(QueryCall::OptDiffThanDefault),
            Err(error) => Err(error),
        }
    }

    /// Whether the configuration differs from the snapshot.
    pub fn opt_diff_than_snapshot(&self) -> (call: Result<QueryCall, TidyError>)
        ensures
            match call {
                Ok(c) => self@.gate() is None && c == QueryCall::OptDiffThanSnapshot,
                Err(e) => self@.gate() == Some(e@),
            },
    {
        match self.check_live() {
            Ok(()) => Ok(QueryCall::OptDiffThanSnapshot),
            Err(error) => Err(error),
        }
    }

    // Reading the document

    /// The status of the document. The status code that the call returns is read
    /// with `TidySeverity::from_status`.
    pub fn status(&self) -> (call: Result<QueryCall, TidyError>)
        ensures
            match call {
                Ok(c) => self@.gate() is None && c == QueryCall::Status,
                Err(e) => self@.gate() == Some(e@),
            },
    {
        match self.check_live() {
            Ok(()) => Ok(QueryCall::Status),
            Err(error) => Err(error),
        }
    }

    /// The number of accessibility warnings that were generated.
    pub fn access_warning_count(&self) -> (call: Result<QueryCall, TidyError>)
        ensures
            match call {
                Ok(c) => self@.gate() is None && c == QueryCall::AccessWarningCount,
                Err(e) => self@.gate() == Some(e@),
            },
    {
        match self.check_live() {
            Ok(()) => Ok(QueryCall::AccessWarningCount),
            Err(error) => Err(error),
        }
    }

    /// The number of configuration errors that were generated.
    pub fn config_error_count(&self) -> (call: Result<QueryCall, TidyError>)
        ensures
            match call {
                Ok(c) => self@.gate() is None && c == QueryCall::ConfigErrorCount,
                Err(e) => self@.gate() == Some(e@),
            },
    {
        match self.check_live() {
            Ok(()) => Ok(QueryCall::ConfigErrorCount),
            Err(error) => Err(error),
        }
    }

    /// The number of errors that were generated.
    pub fn error_count(&self) -> (call: Result<QueryCall, TidyError>)
        ensures
            match call {
                Ok(c) => self@.gate() is None && c == QueryCall::ErrorCount,
                Err(e) => self@.gate() == Some(e@),
            },
    {
        match self.check_live() {
            Ok(()) => Ok(QueryCall::ErrorCount),
            Err(error) => Err(error),
        }
    }

    /// The number of warnings that were generated.
    pub fn warning_count(&self) -> (call: Result<QueryCall, TidyError>)
        ensures
            match call {
                Ok(c) => self@.gate() is None && c == QueryCall::WarningCount,
                Err(e) => self@.gate() == Some(e@),
            },
    {
        match self.check_live() {
            Ok(()) => Ok(QueryCall::WarningCount),
            Err(error) => Err(error),
        }
    }

    /// The HTML version of the output, times 100.
    pub fn detected_html_version(&self) -> (call: Result<QueryCall, TidyError>)
        ensures
            match call {
                Ok(c) => self@.gate() is None && c == QueryCall::DetectedHtmlVersion,
                Err(e) => self@.gate() == Some(e@),
            },
    {
        match self.check_live() {
            Ok(()) => Ok(QueryCall::DetectedHtmlVersion),
            Err(error) => Err(error),
        }
    }

    /// Whether the input was generic XML.
    pub fn detected_generic_xml(&self) -> (call: Result<QueryCall, TidyError>)
        ensures
            match call {
                Ok(c) => self@.gate() is None && c == QueryCall::DetectedGenericXml,
                Err(e) => self@.gate() == Some(e@),
            },
    {
        match self.check_live() {
            Ok(()) => Ok(QueryCall::DetectedGenericXml),
            Err(error) => Err(error),
        }
    }

    /// Whether the output is XHTML.
    pub fn detected_xhtml(&self) -> (call: Result<QueryCall, TidyError>)
        ensures
            match call {
                Ok(c) => self@.gate() is None && c == QueryCall::DetectedXhtml,
                Err(e) => self@.gate() == Some(e@),
            },
    {
        match self.check_live() {
            Ok(()) => Ok(QueryCall::DetectedXhtml),
            Err(error) => Err(error),
        }
    }

    // Reading options

    /// The option of the given number. The handle is valid as long as the document.
    pub fn get_option(&self, optid: TidyOptionId) -> (call: Result<QueryCall, TidyError>)
        ensures
            match call {
                Ok(c) => self@.gate() is None && c == QueryCall::GetOption(optid),
                Err(e) => self@.gate() == Some(e@),
            },
    {
        match self.check_live() {
            Ok(()) => Ok(QueryCall::GetOption(optid)),
            Err(error) => Err(error),
        }
    }

    /// The option of the given name. The handle is valid as long as the document.
    pub fn get_option_by_name(&self, optnam: &str) -> (call: Result<QueryCall, TidyError>)
        ensures
            match call {
                Ok(c) => {
                    &&& self@.refusal(encode_utf8(optnam@)) is None
                    &&& c matches QueryCall::GetOptionByName(t)
                    &&& t@ == encode_utf8(optnam@)
                },
                Err(e) => self@.refusal(encode_utf8(optnam@)) == Some(e@),
            },
    {
        match self.marshal(optnam) {
            Ok(text) => Ok(QueryCall::GetOptionByName(text)),
            Err(error) => Err(error),
        }
    }

    /// The current value of a boolean option.
    pub fn opt_get_bool(&self, optid: TidyOptionId) -> (call: Result<QueryCall, TidyError>)
        ensures
            match call {
                Ok(c) => self@.gate() is None && c == QueryCall::OptGetBool(optid),
                Err(e) => self@.gate() == Some(e@),
            },
    {
        match self.check_live() {
            Ok(()) => Ok(QueryCall::OptGetBool(optid)),
            Err(error) => Err(error),
        }
    }

    /// The current value of an integer option.
    pub fn opt_get_int(&self, optid: TidyOptionId) -> (call: Result<QueryCall, TidyError>)
        ensures
            match call {
                Ok(c) => self@.gate() is None && c == QueryCall::OptGetInt(optid),
                Err(e) => self@.gate() == Some(e@),
            },
    {
        match self.check_live() {
            Ok(()) => Ok(QueryCall::OptGetInt(optid)),
            Err(error) => Err(error),
        }
    }

    /// The current value of a string option.
    pub fn opt_get_value(&self, optid: TidyOptionId) -> (call: Result<QueryCall, TidyError>)
        ensures
            match call {
                Ok(c) => self@.gate() is None && c == QueryCall::OptGetValue(optid),
                Err(e) => self@.gate() == Some(e@),
            },
    {
        match self.check_live() {
            Ok(()) => Ok(QueryCall::OptGetValue(optid)),
            Err(error) => Err(error),
        }
    }

    /// The name of the character encoding that an option holds.
    pub fn opt_get_enc_name(&self, optid: TidyOptionId) -> (call: Result<QueryCall, TidyError>)
        ensures
            match call {
                Ok(c) => self@.gate() is None && c == QueryCall::OptGetEncName(optid),
                Err(e) => self@.gate() == Some(e@),
            },
    {
        match self.check_live() {
            Ok(()) => Ok(QueryCall::OptGetEncName(optid)),
            Err(error) => Err(error),
        }
    }

    /// The description of an option.
    pub fn opt_get_doc(&self, opt: TidyOption) -> (call: Result<QueryCall, TidyError>)
        ensures
            match call {
                Ok(c) => self@.gate() is None && c == QueryCall::OptGetDoc(opt),
                Err(e) => self@.gate() == Some(e@),
            },
    {
        match self.check_live() {
            Ok(()) => Ok(QueryCall::OptGetDoc(opt)),
            Err(error) => Err(error),
        }
    }

    // What the native library answers without a document

    /// The version of the native library.
    pub fn library_version(&self) -> (call: QueryCall)
        ensures
            call == QueryCall::LibraryVersion,
    {
        QueryCall::LibraryVersion
    }

    /// The release date of the native library.
    pub fn release_date(&self) -> (call: QueryCall)
        ensures
            call == QueryCall::ReleaseDate,
    {
        QueryCall::ReleaseDate
    }

    /// The number of the option of the given name. Fails before any native call
    /// if the name holds a null byte.
    pub fn opt_get_id_for_name(optnam: &str) -> (call: Result<QueryCall, TidyError>)
        ensures
            call is Err <==> has_nul(encode_utf8(optnam@)),
            call matches Ok(c) ==> (c matches QueryCall::OptGetIdForName(t) && t@ == encode_utf8(
                optnam@,
            )),
            call matches Err(e) ==> e@ == TidyError::failure(
                TidyErrorKind::Marshal,
                TidyError::marshal_text(),
            ),
    {
        match CText::from_str(optnam) {
            Ok(text) => Ok(QueryCall::OptGetIdForName(text)),
            Err(error) => Err(error),
        }
    }

    /// The number of an option.
    pub fn opt_get_id(opt: TidyOption) -> (call: QueryCall)
        ensures
            call == QueryCall::OptGetId(opt),
    {
        QueryCall::OptGetId(opt)
    }

    /// The name of an option.
    pub fn opt_get_name(opt: TidyOption) -> (call: QueryCall)
        ensures
            call == QueryCall::OptGetName(opt),
    {
        QueryCall::OptGetName(opt)
    }

    /// The type of an option.
    pub fn opt_get_type(opt: TidyOption) -> (call: QueryCall)
        ensures
            call == QueryCall::OptGetType(opt),
    {
        QueryCall::OptGetType(opt)
    }

    /// The category of an option.
    pub fn opt_get_category(opt: TidyOption) -> (call: QueryCall)
        ensures
            call == QueryCall::OptGetCategory(opt),
    {
        QueryCall::OptGetCategory(opt)
    }

    /// The default of an option, as a text.
    pub fn opt_get_default(opt: TidyOption) -> (call: QueryCall)
        ensures
            call == QueryCall::OptGetDefault(opt),
    {
        QueryCall::OptGetDefault(opt)
    }

    /// The default of a boolean option.
    pub fn opt_get_default_bool(opt: TidyOption) -> (call: QueryCall)
        ensures
            call == QueryCall::OptGetDefaultBool(opt),
    {
        QueryCall::OptGetDefaultBool(opt)
    }

    /// The default of an integer option.
    pub fn opt_get_default_int(opt: TidyOption) -> (call: QueryCall)
        ensures
            call == QueryCall::OptGetDefaultInt(opt),
    {
        QueryCall::OptGetDefaultInt(opt)
    }
}

/// The release of a facade frees every resource once and none twice: the plan
/// holds no step twice; for a facade that is not released it frees the memory of
/// both buffers and ends with the release of the document; it has the native
/// library free the contents of a buffer exactly if the buffer has contents, and
/// then directly before the memory of that buffer is freed.
pub proof fn lemma_release_plan(tidy: TidyView, id: BufferId)
    ensures
        tidy.release_plan().no_duplicates(),
        !tidy.released ==> {
            &&& tidy.release_plan().last() == ReleaseCall::Release(tidy.tdoc)
            &&& tidy.release_plan().contains(ReleaseCall::FreeBuffer(id))
        },
        tidy.release_plan().contains(ReleaseCall::BufFree(id)) <==> !tidy.released && match id {
            BufferId::Errbuf => tidy.errbuf.has_contents(),
            BufferId::Output => tidy.output.has_contents(),
        },
        forall|i: int|
            0 <= i < tidy.release_plan().len() && #[trigger] tidy.release_plan()[i]
                == ReleaseCall::BufFree(id) ==> i + 1 < tidy.release_plan().len()
                && tidy.release_plan()[i + 1] == ReleaseCall::FreeBuffer(id),
{
    let plan = tidy.release_plan();
    if !tidy.released {
        let e = TidyView::buffer_release(tidy.errbuf, BufferId::Errbuf);
        let o = TidyView::buffer_release(tidy.output, BufferId::Output);
        assert(plan =~= e + o + seq![ReleaseCall::Release(tidy.tdoc)]);
        match id {
            BufferId::Errbuf => {
                assert(plan[e.len() - 1] == ReleaseCall::FreeBuffer(id));
                if tidy.errbuf.has_contents() {
                    assert(plan[0] == ReleaseCall::BufFree(id));
                }
            },
            BufferId::Output => {
                assert(plan[e.len() + o.len() - 1] == ReleaseCall::FreeBuffer(id));
                if tidy.output.has_contents() {
                    assert(plan[e.len() as int] == ReleaseCall::BufFree(id));
                }
            },
        }
    }
}

/// A second release does nothing: once a facade is disposed of, nothing is left
/// to release, whatever is recorded on it afterwards.
pub proof fn lemma_release_once(tidy: TidyView, errbuf: TidyBufferView, output: TidyBufferView)
    ensures
        tidy.disposed().release_plan() == Seq::<ReleaseCall>::empty(),
        tidy.disposed().disposed() == tidy.disposed(),
        tidy.disposed().saved(output) == tidy.disposed(),
        tidy.disposed().observed(errbuf) == tidy.disposed(),
{
}

/// A facade that is constructed and disposed of at once releases what was
/// allocated for it and nothing else: the memory of the two buffers, whose
/// contents the native library never allocated, and then the document.
pub proof fn lemma_construct_then_dispose(tdoc: TidyDoc)
    ensures
        TidyView::fresh(tdoc).release_plan() == seq![
            ReleaseCall::FreeBuffer(BufferId::Errbuf),
            ReleaseCall::FreeBuffer(BufferId::Output),
            ReleaseCall::Release(tdoc),
        ],
{
    assert(TidyView::fresh(tdoc).release_plan() =~= seq![
        ReleaseCall::FreeBuffer(BufferId::Errbuf),
        ReleaseCall::FreeBuffer(BufferId::Output),
        ReleaseCall::Release(tdoc),
    ]);
}

/// The result buffer has contents only after a save into it: it has none on a
/// fresh facade, a look at the error buffer does not change it, and after a save
/// it holds what the native library left in it, which is nothing where the
/// native library wrote nothing.
pub proof fn lemma_output_follows_saves(
    tidy: TidyView,
    tdoc: TidyDoc,
    errbuf: TidyBufferView,
    output: TidyBufferView,
)
    ensures
        TidyView::fresh(tdoc).output.text() is None,
        tidy.observed(errbuf).output == tidy.output,
        !tidy.released ==> tidy.saved(output).output == output,
        TidyView::fresh(tdoc).saved(output).output.text() is None <==> !output.has_contents(),
{
}

} // verus!
