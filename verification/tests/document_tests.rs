use tidy::{
    BufferId, CText, ConfigCall, QueryCall, ReleaseCall, StatusCall, Tidy, TidyBuffer, TidyDoc,
    TidyError, TidyErrorKind, TidyOption, TidyOptionId, TidySeverity, TidyUtil, BOOL_NO, BOOL_YES,
};

const DOC: TidyDoc = TidyDoc { raw: 4096 };

fn fresh() -> Tidy {
    Tidy::new(DOC, 0).unwrap()
}

fn released() -> Tidy {
    let mut tidy = fresh();
    tidy.dispose();
    tidy
}

fn text(s: &str) -> CText {
    CText::from_str(s).unwrap()
}

fn image(contents: &[u8]) -> TidyBuffer {
    let mut bytes = contents.to_vec();
    bytes.push(0);
    let size = contents.len() as u32;
    TidyBuffer { bp: Some(bytes), size, allocated: size + 1, next: 0 }
}

fn is_released<T: std::fmt::Debug>(result: Result<T, TidyError>) -> bool {
    result.unwrap_err() == TidyError::released()
}

fn is_marshal<T: std::fmt::Debug>(result: Result<T, TidyError>) -> bool {
    result.unwrap_err() == TidyError::marshal()
}

#[test]
fn construction_succeeds_on_status_zero() {
    let tidy = fresh();
    assert!(tidy.is_live());
    assert_eq!(tidy.tdoc(), DOC);
    assert_eq!(*tidy.errbuf(), TidyBuffer::default());
    assert_eq!(*tidy.output(), TidyBuffer::default());
}

#[test]
fn construction_fails_on_any_other_status() {
    for code in [1, 2, -1, -12, -22, 3] {
        let failure = Tidy::new(DOC, code).unwrap_err();
        assert_eq!(failure.error, TidyError::init());
        assert_eq!(failure.error.kind(), TidyErrorKind::Init);
        assert_eq!(failure.error.severity(), TidySeverity::Severe);
        assert_eq!(failure.error.message(), "Tidy set errorbuffer error");
    }
}

#[test]
fn failed_construction_releases_what_was_allocated() {
    let failure = Tidy::new(DOC, -12).unwrap_err();
    assert_eq!(
        failure.release,
        vec![
            ReleaseCall::FreeBuffer(BufferId::Errbuf),
            ReleaseCall::FreeBuffer(BufferId::Output),
            ReleaseCall::Release(DOC),
        ]
    );
}

#[test]
fn fresh_facade_releases_buffers_then_document() {
    let mut tidy = fresh();
    assert_eq!(
        tidy.dispose(),
        vec![
            ReleaseCall::FreeBuffer(BufferId::Errbuf),
            ReleaseCall::FreeBuffer(BufferId::Output),
            ReleaseCall::Release(DOC),
        ]
    );
    assert!(!tidy.is_live());
}

#[test]
fn written_buffers_are_freed_by_the_native_library_first() {
    let mut tidy = fresh();
    tidy.observe_errbuf(image(b"line 1 column 1 - Warning: missing doctype\n"));
    assert_eq!(tidy.save_buffer_outcome(1, image(b"<p></p>\n")), Ok(TidySeverity::Warning));
    assert_eq!(
        tidy.dispose(),
        vec![
            ReleaseCall::BufFree(BufferId::Errbuf),
            ReleaseCall::FreeBuffer(BufferId::Errbuf),
            ReleaseCall::BufFree(BufferId::Output),
            ReleaseCall::FreeBuffer(BufferId::Output),
            ReleaseCall::Release(DOC),
        ]
    );
}

#[test]
fn only_written_buffers_have_their_contents_freed() {
    let mut tidy = fresh();
    tidy.observe_errbuf(image(b"Info: nothing\n"));
    assert_eq!(
        tidy.dispose(),
        vec![
            ReleaseCall::BufFree(BufferId::Errbuf),
            ReleaseCall::FreeBuffer(BufferId::Errbuf),
            ReleaseCall::FreeBuffer(BufferId::Output),
            ReleaseCall::Release(DOC),
        ]
    );
    let mut tidy = fresh();
    assert!(tidy.save_buffer_outcome(0, image(b"<a/>")).is_ok());
    assert_eq!(
        tidy.dispose(),
        vec![
            ReleaseCall::FreeBuffer(BufferId::Errbuf),
            ReleaseCall::BufFree(BufferId::Output),
            ReleaseCall::FreeBuffer(BufferId::Output),
            ReleaseCall::Release(DOC),
        ]
    );
}

#[test]
fn second_disposal_does_nothing() {
    let mut tidy = fresh();
    tidy.observe_errbuf(image(b"x"));
    assert_eq!(tidy.dispose().len(), 4);
    assert_eq!(tidy.dispose(), Vec::new());
    assert_eq!(tidy.dispose(), Vec::new());
    assert!(!tidy.is_live());
}

#[test]
fn construct_and_dispose_cycles_release_the_same() {
    for cycle in 0..100 {
        let doc = TidyDoc { raw: 4096 + cycle };
        let mut tidy = Tidy::new(doc, 0).unwrap();
        let plan = tidy.dispose();
        assert_eq!(plan.len(), 3);
        assert_eq!(plan[2], ReleaseCall::Release(doc));
        assert!(tidy.dispose().is_empty());
    }
}

#[test]
fn released_facade_forgets_its_buffers() {
    let mut tidy = fresh();
    tidy.observe_errbuf(image(b"x"));
    assert!(tidy.save_buffer_outcome(0, image(b"y")).is_ok());
    tidy.dispose();
    assert_eq!(TidyUtil::output_as_vector(&tidy), None);
    assert_eq!(TidyUtil::errbuf_as_string(&tidy), "");
    tidy.observe_errbuf(image(b"late"));
    assert_eq!(tidy.save_buffer_outcome(0, image(b"late")), Ok(TidySeverity::Success));
    assert_eq!(TidyUtil::output_as_vector(&tidy), None);
    assert_eq!(TidyUtil::errbuf_as_string(&tidy), "");
    assert_eq!(tidy.dispose(), Vec::new());
}

#[test]
fn parse_string_marshals_the_content() {
    let call = fresh().parse_string(b"<p>hello</p>".to_vec()).unwrap();
    assert_eq!(call, StatusCall::ParseString(text("<p>hello</p>")));
    match call {
        StatusCall::ParseString(content) => {
            assert_eq!(content.as_bytes_with_nul(), b"<p>hello</p>\0")
        }
        _ => panic!("not a parse"),
    }
}

#[test]
fn parse_string_with_null_byte_fails_before_any_call() {
    let tidy = fresh();
    let error = tidy.parse_string(b"<p>a\0b</p>".to_vec()).unwrap_err();
    assert_eq!(error.kind(), TidyErrorKind::Marshal);
    assert_eq!(error.severity(), TidySeverity::Severe);
    assert!(is_marshal(tidy.parse_string(vec![0])));
    assert!(is_marshal(tidy.parse_string(b"\0<p>".to_vec())));
    assert!(is_marshal(tidy.parse_string(b"<p>\0".to_vec())));
}

#[test]
fn parse_string_accepts_empty_content() {
    assert_eq!(fresh().parse_string(Vec::new()), Ok(StatusCall::ParseString(text(""))));
}

#[test]
fn text_operations_marshal_their_argument() {
    let tidy = fresh();
    assert_eq!(tidy.parse_file("in.html"), Ok(StatusCall::ParseFile(text("in.html"))));
    assert_eq!(tidy.save_file("out.html"), Ok(StatusCall::SaveFile(text("out.html"))));
    assert_eq!(tidy.opt_save_file("tidy.cfg"), Ok(StatusCall::OptSaveFile(text("tidy.cfg"))));
    assert_eq!(tidy.load_config("tidy.cfg"), Ok(StatusCall::LoadConfig(text("tidy.cfg"))));
    assert_eq!(tidy.set_char_encoding("utf8"), Ok(StatusCall::SetCharEncoding(text("utf8"))));
    assert_eq!(
        tidy.set_in_char_encoding("latin1"),
        Ok(StatusCall::SetInCharEncoding(text("latin1")))
    );
    assert_eq!(
        tidy.set_out_char_encoding("ascii"),
        Ok(StatusCall::SetOutCharEncoding(text("ascii")))
    );
    assert_eq!(
        tidy.get_option_by_name("wrap"),
        Ok(QueryCall::GetOptionByName(text("wrap")))
    );
    assert_eq!(
        tidy.opt_set_value(TidyOptionId { raw: 3 }, "auto"),
        Ok(ConfigCall::OptSetValue(TidyOptionId { raw: 3 }, text("auto")))
    );
    assert_eq!(
        tidy.opt_parse_value("wrap", "68"),
        Ok(ConfigCall::OptParseValue(text("wrap"), text("68")))
    );
}

#[test]
fn text_operations_refuse_null_bytes() {
    let tidy = fresh();
    assert!(is_marshal(tidy.parse_file("in\0.html")));
    assert!(is_marshal(tidy.save_file("\0")));
    assert!(is_marshal(tidy.opt_save_file("tidy.cfg\0")));
    assert!(is_marshal(tidy.load_config("a\0b")));
    assert!(is_marshal(tidy.set_char_encoding("utf\08")));
    assert!(is_marshal(tidy.set_in_char_encoding("\0utf8")));
    assert!(is_marshal(tidy.set_out_char_encoding("utf8\0")));
    assert!(is_marshal(tidy.get_option_by_name("wr\0ap")));
    assert!(is_marshal(tidy.opt_set_value(TidyOptionId { raw: 3 }, "au\0to")));
    assert!(is_marshal(tidy.opt_parse_value("wr\0ap", "68")));
    assert!(is_marshal(tidy.opt_parse_value("wrap", "6\08")));
    assert!(is_marshal(tidy.opt_parse_value("\0", "\0")));
}

#[test]
fn operations_without_arguments_name_their_call() {
    let tidy = fresh();
    assert_eq!(tidy.parse_stdin(), Ok(StatusCall::ParseStdin));
    assert_eq!(tidy.clean_and_repair(), Ok(StatusCall::CleanAndRepair));
    assert_eq!(tidy.run_diagnostics(), Ok(StatusCall::RunDiagnostics));
    assert_eq!(tidy.save_buffer(), Ok(StatusCall::SaveBuffer));
    assert_eq!(tidy.save_stdout(), Ok(StatusCall::SaveStdout));
    assert_eq!(tidy.opt_snapshot(), Ok(ConfigCall::OptSnapshot));
    assert_eq!(tidy.opt_reset_to_snapshot(), Ok(ConfigCall::OptResetToSnapshot));
    assert_eq!(tidy.opt_reset_all_to_default(), Ok(ConfigCall::OptResetAllToDefault));
    assert_eq!(tidy.report_doctype(), Ok(QueryCall::ReportDoctype));
    assert_eq!(tidy.error_summary(), Ok(QueryCall::ErrorSummary));
    assert_eq!(tidy.general_info(), Ok(QueryCall::GeneralInfo));
    assert_eq!(tidy.status(), Ok(QueryCall::Status));
    assert_eq!(tidy.access_warning_count(), Ok(QueryCall::AccessWarningCount));
    assert_eq!(tidy.config_error_count(), Ok(QueryCall::ConfigErrorCount));
    assert_eq!(tidy.error_count(), Ok(QueryCall::ErrorCount));
    assert_eq!(tidy.warning_count(), Ok(QueryCall::WarningCount));
    assert_eq!(tidy.detected_html_version(), Ok(QueryCall::DetectedHtmlVersion));
    assert_eq!(tidy.detected_generic_xml(), Ok(QueryCall::DetectedGenericXml));
    assert_eq!(tidy.detected_xhtml(), Ok(QueryCall::DetectedXhtml));
    assert_eq!(tidy.opt_diff_than_default(), Ok(QueryCall::OptDiffThanDefault));
    assert_eq!(tidy.opt_diff_than_snapshot(), Ok(QueryCall::OptDiffThanSnapshot));
}

#[test]
fn option_operations_carry_their_arguments() {
    let tidy = fresh();
    let id = TidyOptionId { raw: 42 };
    let opt = TidyOption { raw: 0x7f00 };
    let other = TidyDoc { raw: 8192 };
    assert_eq!(tidy.opt_set_bool(id, true), Ok(ConfigCall::OptSetBool(id, BOOL_YES)));
    assert_eq!(tidy.opt_set_bool(id, false), Ok(ConfigCall::OptSetBool(id, BOOL_NO)));
    assert_eq!(tidy.opt_set_int(id, 68), Ok(ConfigCall::OptSetInt(id, 68)));
    assert_eq!(tidy.opt_reset_to_default(id), Ok(ConfigCall::OptResetToDefault(id)));
    assert_eq!(tidy.opt_copy_config(other), Ok(ConfigCall::OptCopyConfig(other)));
    assert_eq!(tidy.get_option(id), Ok(QueryCall::GetOption(id)));
    assert_eq!(tidy.opt_get_bool(id), Ok(QueryCall::OptGetBool(id)));
    assert_eq!(tidy.opt_get_int(id), Ok(QueryCall::OptGetInt(id)));
    assert_eq!(tidy.opt_get_value(id), Ok(QueryCall::OptGetValue(id)));
    assert_eq!(tidy.opt_get_enc_name(id), Ok(QueryCall::OptGetEncName(id)));
    assert_eq!(tidy.opt_get_doc(opt), Ok(QueryCall::OptGetDoc(opt)));
}

#[test]
fn calls_that_need_no_document() {
    let opt = TidyOption { raw: 0x7f00 };
    assert_eq!(fresh().library_version(), QueryCall::LibraryVersion);
    assert_eq!(released().release_date(), QueryCall::ReleaseDate);
    assert_eq!(Tidy::opt_get_id_for_name("wrap"), Ok(QueryCall::OptGetIdForName(text("wrap"))));
    assert!(is_marshal(Tidy::opt_get_id_for_name("wr\0ap")));
    assert_eq!(Tidy::opt_get_id(opt), QueryCall::OptGetId(opt));
    assert_eq!(Tidy::opt_get_name(opt), QueryCall::OptGetName(opt));
    assert_eq!(Tidy::opt_get_type(opt), QueryCall::OptGetType(opt));
    assert_eq!(Tidy::opt_get_category(opt), QueryCall::OptGetCategory(opt));
    assert_eq!(Tidy::opt_get_default(opt), QueryCall::OptGetDefault(opt));
    assert_eq!(Tidy::opt_get_default_bool(opt), QueryCall::OptGetDefaultBool(opt));
    assert_eq!(Tidy::opt_get_default_int(opt), QueryCall::OptGetDefaultInt(opt));
}

#[test]
fn released_facade_makes_no_call() {
    let tidy = released();
    let id = TidyOptionId { raw: 42 };
    let opt = TidyOption { raw: 0x7f00 };
    assert!(is_released(tidy.parse_string(b"<p>".to_vec())));
    assert!(is_released(tidy.parse_file("in.html")));
    assert!(is_released(tidy.parse_stdin()));
    assert!(is_released(tidy.clean_and_repair()));
    assert!(is_released(tidy.run_diagnostics()));
    assert!(is_released(tidy.report_doctype()));
    assert!(is_released(tidy.error_summary()));
    assert!(is_released(tidy.general_info()));
    assert!(is_released(tidy.save_buffer()));
    assert!(is_released(tidy.save_file("out.html")));
    assert!(is_released(tidy.save_stdout()));
    assert!(is_released(tidy.opt_save_file("tidy.cfg")));
    assert!(is_released(tidy.set_char_encoding("utf8")));
    assert!(is_released(tidy.set_in_char_encoding("utf8")));
    assert!(is_released(tidy.set_out_char_encoding("utf8")));
    assert!(is_released(tidy.load_config("tidy.cfg")));
    assert!(is_released(tidy.opt_set_bool(id, true)));
    assert!(is_released(tidy.opt_set_int(id, 1)));
    assert!(is_released(tidy.opt_set_value(id, "x")));
    assert!(is_released(tidy.opt_parse_value("wrap", "68")));
    assert!(is_released(tidy.opt_snapshot()));
    assert!(is_released(tidy.opt_reset_to_snapshot()));
    assert!(is_released(tidy.opt_reset_to_default(id)));
    assert!(is_released(tidy.opt_reset_all_to_default()));
    assert!(is_released(tidy.opt_copy_config(TidyDoc { raw: 1 })));
    assert!(is_released(tidy.opt_diff_than_default()));
    assert!(is_released(tidy.opt_diff_than_snapshot()));
    assert!(is_released(tidy.status()));
    assert!(is_released(tidy.access_warning_count()));
    assert!(is_released(tidy.config_error_count()));
    assert!(is_released(tidy.error_count()));
    assert!(is_released(tidy.warning_count()));
    assert!(is_released(tidy.detected_html_version()));
    assert!(is_released(tidy.detected_generic_xml()));
    assert!(is_released(tidy.detected_xhtml()));
    assert!(is_released(tidy.get_option(id)));
    assert!(is_released(tidy.get_option_by_name("wrap")));
    assert!(is_released(tidy.opt_get_bool(id)));
    assert!(is_released(tidy.opt_get_int(id)));
    assert!(is_released(tidy.opt_get_value(id)));
    assert!(is_released(tidy.opt_get_enc_name(id)));
    assert!(is_released(tidy.opt_get_doc(opt)));
}

#[test]
fn released_comes_before_marshalling() {
    let tidy = released();
    assert!(is_released(tidy.parse_string(b"a\0b".to_vec())));
    assert!(is_released(tidy.opt_parse_value("a\0", "b")));
}

#[test]
fn output_is_unset_until_a_save_is_recorded() {
    let mut tidy = fresh();
    assert_eq!(TidyUtil::output_as_vector(&tidy), None);
    tidy.observe_errbuf(image(b"Info\n"));
    assert_eq!(TidyUtil::output_as_vector(&tidy), None);
    assert!(tidy.save_buffer_outcome(0, image(b"<html></html>\n")).is_ok());
    assert_eq!(TidyUtil::output_as_vector(&tidy), Some(b"<html></html>\n".to_vec()));
}

#[test]
fn save_before_any_parse_does_not_crash() {
    let mut tidy = fresh();
    assert_eq!(tidy.save_buffer(), Ok(StatusCall::SaveBuffer));
    assert_eq!(
        tidy.save_buffer_outcome(0, TidyBuffer::default()),
        Ok(TidySeverity::Success)
    );
    assert_eq!(TidyUtil::output_as_vector(&tidy), None);

    let mut tidy = fresh();
    let error = tidy.save_buffer_outcome(-22, TidyBuffer::default()).unwrap_err();
    assert_eq!(error.kind(), TidyErrorKind::Operation);
    assert_eq!(error.message(), "Tidy save buffer error");
    assert_eq!(TidyUtil::output_as_vector(&tidy), None);
}

#[test]
fn failed_save_still_records_the_buffer() {
    let mut tidy = fresh();
    assert!(tidy.save_buffer_outcome(-1, image(b"partial")).is_err());
    assert_eq!(TidyUtil::output_as_vector(&tidy), Some(b"partial".to_vec()));
    assert_eq!(tidy.dispose()[1], ReleaseCall::BufFree(BufferId::Output));
}

#[test]
fn output_ends_at_the_terminator() {
    let mut tidy = fresh();
    let buffer = TidyBuffer {
        bp: Some(b"<a/>\n\0stale\0\0".to_vec()),
        size: 5,
        allocated: 13,
        next: 0,
    };
    assert!(tidy.save_buffer_outcome(0, buffer).is_ok());
    assert_eq!(TidyUtil::output_as_vector(&tidy), Some(b"<a/>\n".to_vec()));
}

#[test]
fn errbuf_is_empty_until_observed() {
    let mut tidy = fresh();
    assert_eq!(TidyUtil::errbuf_as_string(&tidy), "");
    tidy.observe_errbuf(image(b"line 1 column 1 - Warning: missing <!DOCTYPE> declaration\n"));
    assert_eq!(
        TidyUtil::errbuf_as_string(&tidy),
        "line 1 column 1 - Warning: missing <!DOCTYPE> declaration\n"
    );
    tidy.observe_errbuf(image(b""));
    assert_eq!(TidyUtil::errbuf_as_string(&tidy), "");
}

#[test]
fn errbuf_is_readable_after_a_failure() {
    let mut tidy = fresh();
    let call = tidy.parse_file("missing.html").unwrap();
    tidy.observe_errbuf(image(b"Error: Can't open \"missing.html\"\n"));
    assert!(call.outcome(-2).is_err());
    assert_eq!(TidyUtil::errbuf_as_string(&tidy), "Error: Can't open \"missing.html\"\n");
}

#[test]
fn errbuf_with_invalid_utf8_is_still_read() {
    let mut tidy = fresh();
    tidy.observe_errbuf(image(&[b'c', b'a', b'f', 0xe9]));
    assert_eq!(TidyUtil::errbuf_as_string(&tidy), "caf\u{fffd}");
}

#[test]
fn encoding_then_parse_of_well_formed_input_succeeds() {
    for name in ["ascii", "latin1", "raw", "utf8", "iso2022", "mac", "win1252", "utf16"] {
        let tidy = fresh();
        let set = tidy.set_char_encoding(name).unwrap();
        assert_eq!(set, StatusCall::SetCharEncoding(text(name)));
        assert_eq!(set.outcome(0), Ok(TidySeverity::Success));
        let parse = tidy.parse_string(b"<!DOCTYPE html><title>t</title><p>x</p>".to_vec()).unwrap();
        assert_eq!(parse.outcome(0), Ok(TidySeverity::Success));
    }
}

#[test]
fn set_bool_then_get_bool_round_trip() {
    let tidy = fresh();
    let id = TidyOptionId { raw: 90 };
    let set = tidy.opt_set_bool(id, true).unwrap();
    let stored = match set {
        ConfigCall::OptSetBool(option, flag) => {
            assert_eq!(option, id);
            flag
        }
        _ => panic!("not a setter"),
    };
    assert_eq!(set.outcome(BOOL_YES), Ok(TidySeverity::Success));
    assert_eq!(tidy.opt_get_bool(id), Ok(QueryCall::OptGetBool(id)));
    assert!(TidyUtil::tidy_bool_to_bool(stored));
}

#[test]
fn snapshot_change_and_restore_name_their_calls() {
    let tidy = fresh();
    let id = TidyOptionId { raw: 12 };
    assert_eq!(tidy.opt_snapshot().unwrap().outcome(BOOL_YES), Ok(TidySeverity::Success));
    assert_eq!(tidy.opt_set_int(id, 120).unwrap().outcome(BOOL_YES), Ok(TidySeverity::Success));
    assert_eq!(tidy.opt_diff_than_snapshot(), Ok(QueryCall::OptDiffThanSnapshot));
    assert!(TidyUtil::tidy_bool_to_bool(BOOL_YES));
    assert_eq!(
        tidy.opt_reset_to_snapshot().unwrap().outcome(BOOL_YES),
        Ok(TidySeverity::Success)
    );
    assert!(!TidyUtil::tidy_bool_to_bool(BOOL_NO));
}

#[test]
fn xml_document_end_to_end() {
    let xml_tags = TidyOptionId { raw: 103 };
    let mut tidy = fresh();

    let set = tidy.opt_set_bool(xml_tags, true).unwrap();
    assert_eq!(set, ConfigCall::OptSetBool(xml_tags, BOOL_YES));
    assert_eq!(set.outcome(BOOL_YES), Ok(TidySeverity::Success));

    let encoding = tidy.set_char_encoding("utf8").unwrap();
    assert_eq!(encoding.outcome(0), Ok(TidySeverity::Success));

    let parse = tidy.parse_string(b"<test>5 < 6 and 9 > 7</test>".to_vec()).unwrap();
    match &parse {
        StatusCall::ParseString(content) => {
            assert_eq!(content.as_bytes_with_nul(), b"<test>5 < 6 and 9 > 7</test>\0")
        }
        _ => panic!("not a parse"),
    }
    assert_eq!(parse.outcome(1), Ok(TidySeverity::Warning));
    tidy.observe_errbuf(image(b"line 1 column 7 - Warning: unescaped & or unknown entity\n"));

    assert_eq!(tidy.clean_and_repair().unwrap().outcome(1), Ok(TidySeverity::Warning));
    assert_eq!(tidy.run_diagnostics().unwrap().outcome(1), Ok(TidySeverity::Warning));

    assert_eq!(tidy.status(), Ok(QueryCall::Status));
    let status = TidySeverity::from_status(1);
    assert!(status == TidySeverity::Success || status == TidySeverity::Warning);
    assert!(status < TidySeverity::Error);

    assert_eq!(tidy.detected_generic_xml(), Ok(QueryCall::DetectedGenericXml));
    assert!(TidyUtil::tidy_bool_to_bool(BOOL_YES));

    assert_eq!(tidy.save_buffer(), Ok(StatusCall::SaveBuffer));
    let rendered = image(b"<test>5 &lt; 6 and 9 &gt; 7</test>\n");
    assert_eq!(tidy.save_buffer_outcome(1, rendered), Ok(TidySeverity::Warning));
    let output = TidyUtil::output_as_vector(&tidy).unwrap();
    assert!(!output.is_empty());
    let rendered = String::from_utf8(output).unwrap();
    assert!(rendered.starts_with("<test>"));
    assert!(rendered.contains("&lt;"));
    assert!(rendered.contains("&gt;"));
    assert!(rendered.trim_end().ends_with("</test>"));
    assert!(!TidyUtil::errbuf_as_string(&tidy).is_empty());

    assert_eq!(tidy.dispose().len(), 5);
}

#[test]
fn unknown_option_name_is_an_operation_error() {
    let tidy = fresh();
    let call = tidy.opt_parse_value("not-a-real-option", "x").unwrap();
    assert_eq!(call, ConfigCall::OptParseValue(text("not-a-real-option"), text("x")));
    let error = call.outcome(BOOL_NO).unwrap_err();
    assert_eq!(error.kind(), TidyErrorKind::Operation);
    assert_eq!(error.severity(), TidySeverity::Severe);
    assert_eq!(error.message(), "Tidy option parse value error");
    assert_eq!(error.to_string(), "Tidy option parse value error");
}
