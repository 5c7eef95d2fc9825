//! The decisions of one fetch: turning a response's status code and body
//! into the single action the surrounding program performs — persist the
//! re-serialized body, skip without touching the output, or abort.

use vstd::prelude::*;
use crate::json::{json_value, json_text, json_member, parse_json, serialize_json, json_get};
use crate::status::{StatusClass, classify_status};

verus! {

/// The failure of a success-status response whose body is not JSON.
#[derive(Clone, Copy, Debug, PartialEq, Eq, Structural)]
pub enum BodyError {
    InvalidJson,
}

/// The key of the one member read from a successful body, for diagnostics.
pub open spec fn releases_key() -> Seq<char> {
    "releases"@
}

/// The diagnostic line for a parsed body: the serialization of its
/// "releases" member, or a fixed marker when that member is absent.
pub open spec fn releases_report(v: serde_json::Value) -> Seq<char> {
    match json_member(v, releases_key()) {
        Some(m) => json_text(m),
        None => "absent"@,
    }
}

/// What a successful fetch produces.
#[derive(Debug)]
pub struct SuccessOutput {
    /// The full body, re-serialized: the output artifact's exact contents.
    pub file_text: String,
    /// The "releases" member, for the diagnostic print.
    pub diagnostic: String,
}

/// Turns the body of a success response into the output to persist and the
/// diagnostic to print. The body is accepted exactly when it parses as JSON;
/// the text to persist is the whole parsed value re-serialized, and parsing
/// that text back yields a value equal to the parsed body — the artifact is
/// a faithful copy of the response.
pub fn process_body(body: &str) -> (r: Result<SuccessOutput, BodyError>)
    ensures
        r is Ok <==> json_value(body@) is Some,
        r matches Ok(out) ==> {
            &&& out.file_text@ == json_text(json_value(body@)->Some_0)
            &&& json_value(out.file_text@) == Some(json_value(body@)->Some_0)
            &&& out.diagnostic@ == releases_report(json_value(body@)->Some_0)
        },
        r is Err ==> r->Err_0 == BodyError::InvalidJson,
{
    match parse_json(body) {
        Ok(v) => {
            let diagnostic = match json_get(&v, "releases") {
                Some(m) => serialize_json(m),
                None => String::from_str("absent"),
            };
            let file_text = serialize_json(&v);
            Ok(SuccessOutput { file_text, diagnostic })
        }
        Err(_) => Err(BodyError::InvalidJson),
    }
}

/// The one action the surrounding program performs for a response.
#[derive(Debug)]
pub enum ResponseAction {
    /// Persist the re-serialized body and print the diagnostic.
    Write(SuccessOutput),
    /// Print that the credential needs renewal; leave the output untouched.
    SkipUnauthorized,
    /// Abort the process: the status was neither success nor unauthorized.
    AbortUnexpectedStatus,
    /// Abort the process: the status was success but the body is not JSON.
    AbortInvalidBody,
}

/// The output artifact after one run, as a function of its contents before
/// the run (`None`: no file) and of the response: a successful run with a
/// JSON body overwrites the artifact with the body's re-serialization, and
/// every other outcome leaves it exactly as it was.
pub open spec fn file_after_run(
    before: Option<Seq<char>>,
    status: u16,
    body: Seq<char>,
) -> Option<Seq<char>> {
    if status == 200 && json_value(body) is Some {
        Some(json_text(json_value(body)->Some_0))
    } else {
        before
    }
}

/// Dispatches on the response: status 200 with a JSON body yields the output
/// to persist, status 401 is skipped, any other status — and a 200 whose
/// body is not JSON — aborts. The clauses pin each action to exactly the
/// responses that cause it, and tie the action to the artifact model:
/// whatever the artifact held before, only a `Write` action changes it.
pub fn handle_response(status: u16, body: &str) -> (r: ResponseAction)
    ensures
        r is Write <==> (status == 200 && json_value(body@) is Some),
        r matches ResponseAction::Write(out) ==> {
            &&& out.file_text@ == json_text(json_value(body@)->Some_0)
            &&& json_value(out.file_text@) == Some(json_value(body@)->Some_0)
            &&& out.diagnostic@ == releases_report(json_value(body@)->Some_0)
        },
        r is AbortInvalidBody <==> (status == 200 && json_value(body@) is None),
        r is SkipUnauthorized <==> status == 401,
        r is AbortUnexpectedStatus <==> (status != 200 && status != 401),
        forall|before: Option<Seq<char>>|
            #[trigger] file_after_run(before, status, body@) == (match r {
                ResponseAction::Write(out) => Some(out.file_text@),
                _ => before,
            }),
{
    match classify_status(status) {
        StatusClass::Success => match process_body(body) {
            Ok(out) => ResponseAction::Write(out),
            Err(_) => ResponseAction::AbortInvalidBody,
        },
        StatusClass::Unauthorized => ResponseAction::SkipUnauthorized,
        StatusClass::Unexpected => ResponseAction::AbortUnexpectedStatus,
    }
}

/// Overwrite law: whatever the artifact held before, after two runs whose
/// second response is a success with a JSON body, it holds exactly the
/// second body's re-serialization — the first response leaves no trace.
pub proof fn lemma_second_run_wins(
    before: Option<Seq<char>>,
    status1: u16,
    body1: Seq<char>,
    status2: u16,
    body2: Seq<char>,
)
    requires
        status2 == 200,
        json_value(body2) is Some,
    ensures
        file_after_run(file_after_run(before, status1, body1), status2, body2) == Some(
            json_text(json_value(body2)->Some_0),
        ),
{
}

/// Preservation law: a run whose response is unauthorized, carries any other
/// non-success status, or is a success whose body is not JSON, leaves the
/// artifact exactly as it was — created by no run, modified by no run.
pub proof fn lemma_failed_run_preserves_file(
    before: Option<Seq<char>>,
    status: u16,
    body: Seq<char>,
)
    requires
        status != 200 || json_value(body) is None,
    ensures
        file_after_run(before, status, body) == before,
{
}

} // verus!
