//! Repository link syntax, decided by the `url` crate.

use vstd::prelude::*;

verus! {

/// Whether `url::Url::parse` accepts `s` as an absolute URL. Parsing is a
/// function of the characters alone, so the result only gets a name here;
/// nothing else is assumed of it.
pub uninterp spec fn url_accepts(s: Seq<char>) -> bool;

/// Relies on `url::Url::parse`: it parses an absolute URL from the string,
/// deterministically, and returns an error when it cannot.
#[verifier::external_body]
pub(crate) fn parses_as_url(s: &str) -> (r: bool)
    ensures
        r == url_accepts(s@),
{
    url::Url::parse(s).is_ok()
}

} // verus!
