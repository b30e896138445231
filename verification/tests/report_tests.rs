use report_form::form::FormState;
use report_form::report::report_text;

#[test]
fn successful_run_shows_the_report_file() {
    let content = "Developer report\nscore: 7/10\n".to_string();
    let out = report_text(true, Some(content.clone()), &Vec::new());
    assert_eq!(out, content);
}

#[test]
fn successful_run_with_unreadable_file_shows_fixed_message() {
    let stdout = b"ignored on success".to_vec();
    let out = report_text(true, None, &stdout);
    assert_eq!(out, "Failed to read output file.");
}

#[test]
fn failed_run_shows_decoded_stdout() {
    let stdout = b"error: repository not found\n".to_vec();
    let out = report_text(false, None, &stdout);
    assert_eq!(out, "error: repository not found\n");
}

#[test]
fn failed_run_decodes_invalid_bytes_permissively() {
    let stdout = vec![b'b', b'a', b'd', b' ', 0xFF, 0xFE, b'!'];
    let out = report_text(false, None, &stdout);
    assert_eq!(out, "bad \u{FFFD}\u{FFFD}!");
    // the file content is ignored on a failed exit
    let out2 = report_text(false, Some("stale report".to_string()), &stdout);
    assert_eq!(out2, "bad \u{FFFD}\u{FFFD}!");
}

#[test]
fn failed_run_with_empty_stdout_shows_nothing() {
    let out = report_text(false, None, &Vec::new());
    assert_eq!(out, "");
}

#[test]
fn form_state_starts_empty_and_records_results() {
    let mut s = FormState::new();
    assert_eq!(s.input.email, "");
    assert_eq!(s.input.start_date, "");
    assert_eq!(s.input.end_date, "");
    assert_eq!(s.input.link, "");
    assert_eq!(s.result, "");

    s.input.link = "https://example.com".to_string();
    s.record_result("Link is required.".to_string());
    assert_eq!(s.result, "Link is required.");
    assert_eq!(s.input.link, "https://example.com");
}
