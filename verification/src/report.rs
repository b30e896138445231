//! Interpretation of an external report run: which text the form shows for
//! each outcome of the collaborator process.

use vstd::prelude::*;
use vstd::utf8::encode_utf8;
use vstd::utf8::valid_utf8;

verus! {

/// What `String::from_utf8_lossy` makes of a byte sequence. The decoding
/// depends on the bytes alone, so the result only gets a name here.
pub uninterp spec fn lossy_utf8(bytes: Seq<u8>) -> Seq<char>;

/// Relies on `String::from_utf8_lossy`: the decoding depends on the bytes
/// alone, replaces invalid sequences and never errors, and leaves valid
/// UTF-8 unchanged.
#[verifier::external_body]
fn decode_lossy(bytes: &Vec<u8>) -> (r: String)
    ensures
        r@ == lossy_utf8(bytes@),
        valid_utf8(bytes@) ==> encode_utf8(r@) == bytes@,
{
    String::from_utf8_lossy(bytes).into_owned()
}

/// The fixed message shown when the collaborator exited successfully but
/// its report file could not be read.
pub open spec fn spec_unreadable_report_message() -> Seq<char> {
    "Failed to read output file."@
}

/// The text shown for an outcome of the collaborator process: on a
/// successful exit the report file's content, or a fixed message when that
/// file could not be read; on a failed exit the process's standard output,
/// decoded permissively.
pub open spec fn spec_report_text(
    exit_success: bool,
    report_file: Option<Seq<char>>,
    stdout_bytes: Seq<u8>,
) -> Seq<char> {
    if exit_success {
        match report_file {
            Some(content) => content,
            None => spec_unreadable_report_message(),
        }
    } else {
        lossy_utf8(stdout_bytes)
    }
}

/// The view of the report file's content, where it could be read.
pub open spec fn spec_file_view(report_file: Option<String>) -> Option<Seq<char>> {
    match report_file {
        Some(content) => Some(content@),
        None => None,
    }
}

/// Turns the outcome of one collaborator run into the text to show:
/// `exit_success` is its exit status, `report_file` the content of the
/// report file where it could be read, `stdout_bytes` its captured
/// standard output.
pub fn report_text(
    exit_success: bool,
    report_file: Option<String>,
    stdout_bytes: &Vec<u8>,
) -> (r: String)
    ensures
        r@ == spec_report_text(exit_success, spec_file_view(report_file), stdout_bytes@),
{
    if exit_success {
        match report_file {
            Some(content) => content,
            None => String::from_str("Failed to read output file."),
        }
    } else {
        decode_lossy(stdout_bytes)
    }
}

} // verus!
