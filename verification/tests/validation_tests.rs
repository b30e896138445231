use report_form::form::FormInput;
use report_form::submit::SubmitAction;
use report_form::submit::submit_confirmation;
use report_form::submit::submit_report;

fn form(email: &str, start_date: &str, end_date: &str, link: &str) -> FormInput {
    let mut f = FormInput::new();
    f.email = email.to_string();
    f.start_date = start_date.to_string();
    f.end_date = end_date.to_string();
    f.link = link.to_string();
    f
}

fn report_message(f: &FormInput) -> String {
    match submit_report(f) {
        SubmitAction::Reject(m) => m,
        SubmitAction::RunReport(_) => panic!("expected a rejection"),
    }
}

#[test]
fn confirmation_empty_fields_in_order() {
    // every emptiness combination: the first failing rule decides
    let cases = [
        ("", "", ""),
        ("", "", "2024-01-31"),
        ("", "2024-01-01", ""),
        ("", "2024-01-01", "2024-01-31"),
        ("a@b.com", "", ""),
        ("a@b.com", "", "2024-01-31"),
        ("a@b.com", "2024-01-01", ""),
    ];
    let expected = [
        "Email is required.",
        "Email is required.",
        "Email is required.",
        "Email is required.",
        "Start date is required.",
        "Start date is required.",
        "End date is required.",
    ];
    for (i, (email, start, end)) in cases.iter().enumerate() {
        let f = form(email, start, end, "");
        assert_eq!(submit_confirmation(&f), expected[i]);
    }
}

#[test]
fn report_empty_fields_in_order() {
    let cases = [
        ("", "", ""),
        ("", "", "https://example.com/r"),
        ("", "2024-01-31", ""),
        ("", "2024-01-31", "https://example.com/r"),
        ("2024-01-01", "", ""),
        ("2024-01-01", "", "https://example.com/r"),
        ("2024-01-01", "2024-01-31", ""),
    ];
    let expected = [
        "Start date is required.",
        "Start date is required.",
        "Start date is required.",
        "Start date is required.",
        "End date is required.",
        "End date is required.",
        "Link is required.",
    ];
    for (i, (start, end, link)) in cases.iter().enumerate() {
        let f = form("", start, end, link);
        assert_eq!(report_message(&f), expected[i]);
    }
}

#[test]
fn malformed_email_is_rejected() {
    let bad = [
        "plainaddress",
        "no-at-sign.example.com",
        "@missing-local.com",
        "user@",
        "user@nodot",
        "user@.leadingdot.com",
        "user@trailingdot.com.",
        "user@double..dot.com",
        "two@@signs.com",
        "spaces in@local.com",
        "user@dom ain.com",
    ];
    for email in bad {
        let f = form(email, "2024-01-01", "2024-01-31", "");
        assert_eq!(submit_confirmation(&f), "Invalid email.");
    }
}

#[test]
fn well_formed_email_is_accepted() {
    let good = ["a@b.co", "first.last+tag@sub.example.com", "user_1%x@my-host.org"];
    for email in good {
        let f = form(email, "2024-01-01", "2024-01-31", "");
        let out = submit_confirmation(&f);
        assert!(out.starts_with("Submission received."), "rejected {email}: {out}");
    }
}

#[test]
fn malformed_link_is_rejected() {
    let bad = ["not a url", "example.com/no-scheme", "   ", "http://"];
    for link in bad {
        let f = form("", "2024-01-01", "2024-01-31", link);
        assert_eq!(report_message(&f), "Invalid URL.");
    }
}

#[test]
fn valid_link_is_dispatched_verbatim() {
    let f = form("", "2024-01-01", "2024-01-31", "https://example.com/repo.git");
    match submit_report(&f) {
        SubmitAction::Reject(m) => panic!("rejected: {m}"),
        SubmitAction::RunReport(req) => {
            assert_eq!(req.link, "https://example.com/repo.git");
            assert_eq!(req.start_date, "2024-01-01");
            assert_eq!(req.end_date, "2024-01-31");
            assert_eq!(req.output_path, "code_quality_report.rpt");
        }
    }
}

#[test]
fn confirmation_interpolates_verbatim() {
    let f = form("dev@example.org", "2024-01-01", "2024-12-31", "");
    assert_eq!(
        submit_confirmation(&f),
        "Submission received.\nEmail: dev@example.org\nStart Date: 2024-01-01\nEnd Date: 2024-12-31"
    );
}

#[test]
fn repeated_submission_gives_the_same_result() {
    let f = form("dev@example.org", "2024-01-01", "2024-12-31", "");
    let first = submit_confirmation(&f);
    let second = submit_confirmation(&f);
    assert_eq!(first, second);

    let g = form("", "2024-01-01", "2024-12-31", "https://example.com/repo.git");
    let (r1, r2) = (submit_report(&g), submit_report(&g));
    match (r1, r2) {
        (SubmitAction::RunReport(a), SubmitAction::RunReport(b)) => {
            assert_eq!(a.link, b.link);
            assert_eq!(a.start_date, b.start_date);
            assert_eq!(a.end_date, b.end_date);
            assert_eq!(a.output_path, b.output_path);
        }
        _ => panic!("expected both submissions to dispatch"),
    }
}
