//! Field validation: a fixed order of rules, stopping at the first failure,
//! each failure with its fixed message.

use vstd::prelude::*;
use crate::email::is_valid_email;
use crate::email::valid_email;
use crate::form::FormInput;
use crate::link::parses_as_url;
use crate::link::url_accepts;

verus! {

/// The rule that failed first. Each variant carries a fixed message.
#[derive(Clone, Copy, Debug, PartialEq, Eq, Structural)]
pub enum FieldError {
    EmailMissing,
    StartDateMissing,
    EndDateMissing,
    LinkMissing,
    EmailMalformed,
    LinkMalformed,
}

impl FieldError {
    /// The fixed message of this rule.
    pub open spec fn spec_message(self) -> Seq<char> {
        match self {
            FieldError::EmailMissing => "Email is required."@,
            FieldError::StartDateMissing => "Start date is required."@,
            FieldError::EndDateMissing => "End date is required."@,
            FieldError::LinkMissing => "Link is required."@,
            FieldError::EmailMalformed => "Invalid email."@,
            FieldError::LinkMalformed => "Invalid URL."@,
        }
    }

    /// The fixed message of this rule, as shown in the result panel.
    pub fn message(self) -> (r: String)
        ensures
            r@ == self.spec_message(),
    {
        match self {
            FieldError::EmailMissing => String::from_str("Email is required."),
            FieldError::StartDateMissing => String::from_str("Start date is required."),
            FieldError::EndDateMissing => String::from_str("End date is required."),
            FieldError::LinkMissing => String::from_str("Link is required."),
            FieldError::EmailMalformed => String::from_str("Invalid email."),
            FieldError::LinkMalformed => String::from_str("Invalid URL."),
        }
    }
}

/// The confirmation form's validation chain: email present, start date
/// present, end date present, email well-formed. The first failing rule
/// decides; `None` means every rule passed.
pub open spec fn spec_check_confirmation(
    email: Seq<char>,
    start_date: Seq<char>,
    end_date: Seq<char>,
) -> Option<FieldError> {
    if email.len() == 0 {
        Some(FieldError::EmailMissing)
    } else if start_date.len() == 0 {
        Some(FieldError::StartDateMissing)
    } else if end_date.len() == 0 {
        Some(FieldError::EndDateMissing)
    } else if !valid_email(email) {
        Some(FieldError::EmailMalformed)
    } else {
        None
    }
}

/// The report form's validation chain: start date present, end date
/// present, link present, link a syntactically valid URL. The first
/// failing rule decides; `None` means every rule passed.
pub open spec fn spec_check_report(
    start_date: Seq<char>,
    end_date: Seq<char>,
    link: Seq<char>,
) -> Option<FieldError> {
    if start_date.len() == 0 {
        Some(FieldError::StartDateMissing)
    } else if end_date.len() == 0 {
        Some(FieldError::EndDateMissing)
    } else if link.len() == 0 {
        Some(FieldError::LinkMissing)
    } else if !url_accepts(link) {
        Some(FieldError::LinkMalformed)
    } else {
        None
    }
}

/// Runs the confirmation form's validation chain on the fields of `f`.
pub fn check_confirmation_fields(f: &FormInput) -> (r: Option<FieldError>)
    ensures
        r == spec_check_confirmation(f.email@, f.start_date@, f.end_date@),
{
    if f.email.as_str().is_empty() {
        Some(FieldError::EmailMissing)
    } else if f.start_date.as_str().is_empty() {
        Some(FieldError::StartDateMissing)
    } else if f.end_date.as_str().is_empty() {
        Some(FieldError::EndDateMissing)
    } else if !is_valid_email(f.email.as_str()) {
        Some(FieldError::EmailMalformed)
    } else {
        None
    }
}

/// Runs the report form's validation chain on the fields of `f`.
pub fn check_report_fields(f: &FormInput) -> (r: Option<FieldError>)
    ensures
        r == spec_check_report(f.start_date@, f.end_date@, f.link@),
{
    if f.start_date.as_str().is_empty() {
        Some(FieldError::StartDateMissing)
    } else if f.end_date.as_str().is_empty() {
        Some(FieldError::EndDateMissing)
    } else if f.link.as_str().is_empty() {
        Some(FieldError::LinkMissing)
    } else if !parses_as_url(f.link.as_str()) {
        Some(FieldError::LinkMalformed)
    } else {
        None
    }
}

/// For every combination of fields, the confirmation form's chain reports
/// the first failing rule, in its fixed order: a missing field before a
/// malformed one, and the email before the dates; only fully valid fields
/// pass.
pub proof fn lemma_confirmation_first_failure(
    email: Seq<char>,
    start_date: Seq<char>,
    end_date: Seq<char>,
)
    ensures
        email.len() == 0 ==> spec_check_confirmation(email, start_date, end_date) == Some(
            FieldError::EmailMissing,
        ),
        email.len() > 0 && start_date.len() == 0 ==> spec_check_confirmation(
            email,
            start_date,
            end_date,
        ) == Some(FieldError::StartDateMissing),
        email.len() > 0 && start_date.len() > 0 && end_date.len() == 0
            ==> spec_check_confirmation(email, start_date, end_date) == Some(
            FieldError::EndDateMissing,
        ),
        email.len() > 0 && start_date.len() > 0 && end_date.len() > 0 && !valid_email(email)
            ==> spec_check_confirmation(email, start_date, end_date) == Some(
            FieldError::EmailMalformed,
        ),
        spec_check_confirmation(email, start_date, end_date) is None <==> email.len() > 0
            && start_date.len() > 0 && end_date.len() > 0 && valid_email(email),
{
}

/// For every combination of fields, the report form's chain reports the
/// first failing rule, in its fixed order; only fully valid fields pass.
pub proof fn lemma_report_first_failure(
    start_date: Seq<char>,
    end_date: Seq<char>,
    link: Seq<char>,
)
    ensures
        start_date.len() == 0 ==> spec_check_report(start_date, end_date, link) == Some(
            FieldError::StartDateMissing,
        ),
        start_date.len() > 0 && end_date.len() == 0 ==> spec_check_report(
            start_date,
            end_date,
            link,
        ) == Some(FieldError::EndDateMissing),
        start_date.len() > 0 && end_date.len() > 0 && link.len() == 0 ==> spec_check_report(
            start_date,
            end_date,
            link,
        ) == Some(FieldError::LinkMissing),
        start_date.len() > 0 && end_date.len() > 0 && link.len() > 0 && !url_accepts(link)
            ==> spec_check_report(start_date, end_date, link) == Some(FieldError::LinkMalformed),
        spec_check_report(start_date, end_date, link) is None <==> start_date.len() > 0
            && end_date.len() > 0 && link.len() > 0 && url_accepts(link),
{
}

} // verus!
