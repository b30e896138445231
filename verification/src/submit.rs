//! The submit handlers: validation in its fixed order, then either a
//! confirmation message or a request handed to the external collaborator.

use vstd::prelude::*;
use crate::form::FormInput;
use crate::validate::FieldError;
use crate::validate::check_confirmation_fields;
use crate::validate::check_report_fields;
use crate::validate::spec_check_confirmation;
use crate::validate::spec_check_report;

verus! {

/// The confirmation template with the three validated field values
/// substituted verbatim.
pub open spec fn spec_confirmation(
    email: Seq<char>,
    start_date: Seq<char>,
    end_date: Seq<char>,
) -> Seq<char> {
    "Submission received.\nEmail: "@ + email + "\nStart Date: "@ + start_date + "\nEnd Date: "@
        + end_date
}

/// Builds the confirmation message, interpolating the field values
/// verbatim into the fixed template.
pub fn confirmation_message(email: &str, start_date: &str, end_date: &str) -> (r: String)
    ensures
        r@ == spec_confirmation(email@, start_date@, end_date@),
{
    let mut r = String::from_str("Submission received.\nEmail: ");
    r.append(email);
    r.append("\nStart Date: ");
    r.append(start_date);
    r.append("\nEnd Date: ");
    r.append(end_date);
    r
}

/// What one submission of the confirmation form shows: the first failing
/// rule's message, or the confirmation with the fields interpolated.
pub open spec fn spec_submit_confirmation(
    email: Seq<char>,
    start_date: Seq<char>,
    end_date: Seq<char>,
) -> Seq<char> {
    match spec_check_confirmation(email, start_date, end_date) {
        Some(e) => e.spec_message(),
        None => spec_confirmation(email, start_date, end_date),
    }
}

/// Handles one submission of the confirmation form: validates the fields
/// in their fixed order and returns the text for the result panel.
pub fn submit_confirmation(f: &FormInput) -> (r: String)
    ensures
        r@ == spec_submit_confirmation(f.email@, f.start_date@, f.end_date@),
{
    match check_confirmation_fields(f) {
        Some(e) => e.message(),
        None => confirmation_message(
            f.email.as_str(),
            f.start_date.as_str(),
            f.end_date.as_str(),
        ),
    }
}

/// The name of the file the collaborator is asked to write its report to.
pub open spec fn spec_report_file_name() -> Seq<char> {
    "code_quality_report.rpt"@
}

/// The name of the file the collaborator is asked to write its report to.
pub fn report_file_name() -> (r: String)
    ensures
        r@ == spec_report_file_name(),
{
    String::from_str("code_quality_report.rpt")
}

/// The arguments of one collaborator invocation: the validated fields
/// verbatim, and the path the report is to be written to.
pub struct ReportRequest {
    pub link: String,
    pub start_date: String,
    pub end_date: String,
    pub output_path: String,
}

/// What one submission of the report form decides: show a message, or run
/// the collaborator with the given arguments and show its outcome.
pub enum SubmitAction {
    Reject(String),
    RunReport(ReportRequest),
}

/// Handles one submission of the report form: validates the fields in
/// their fixed order; on the first failure the action is to show that
/// rule's message, on success it is to run the collaborator on the fields
/// verbatim with the fixed report file name.
pub fn submit_report(f: &FormInput) -> (a: SubmitAction)
    ensures
        match spec_check_report(f.start_date@, f.end_date@, f.link@) {
            Some(e) => a matches SubmitAction::Reject(m) && m@ == e.spec_message(),
            None => a matches SubmitAction::RunReport(req) && req.link@ == f.link@
                && req.start_date@ == f.start_date@ && req.end_date@ == f.end_date@
                && req.output_path@ == spec_report_file_name(),
        },
{
    match check_report_fields(f) {
        Some(e) => SubmitAction::Reject(e.message()),
        None => SubmitAction::RunReport(
            ReportRequest {
                link: f.link.clone(),
                start_date: f.start_date.clone(),
                end_date: f.end_date.clone(),
                output_path: report_file_name(),
            },
        ),
    }
}

/// On fully valid fields the confirmation form shows exactly the template
/// with the three values substituted verbatim, embedded newlines included.
pub proof fn lemma_valid_submission_is_confirmation(
    email: Seq<char>,
    start_date: Seq<char>,
    end_date: Seq<char>,
)
    requires
        spec_check_confirmation(email, start_date, end_date) is None,
    ensures
        spec_submit_confirmation(email, start_date, end_date) == spec_confirmation(
            email,
            start_date,
            end_date,
        ),
{
}

/// Submission is repeatable: a second submission with unchanged fields
/// takes the same path as the first and, for the confirmation form, shows
/// the same text; for the report form it validates the same way and hands
/// the collaborator the same request, whose outcome is outside the form.
pub proof fn lemma_submission_repeatable(
    email: Seq<char>,
    start_date: Seq<char>,
    end_date: Seq<char>,
    link: Seq<char>,
    email2: Seq<char>,
    start_date2: Seq<char>,
    end_date2: Seq<char>,
    link2: Seq<char>,
)
    requires
        email2 == email,
        start_date2 == start_date,
        end_date2 == end_date,
        link2 == link,
    ensures
        spec_submit_confirmation(email2, start_date2, end_date2) == spec_submit_confirmation(
            email,
            start_date,
            end_date,
        ),
        spec_check_report(start_date2, end_date2, link2) == spec_check_report(
            start_date,
            end_date,
            link,
        ),
{
}

} // verus!
