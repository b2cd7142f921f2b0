//! The daemon's HTTP interface: addresses and the judging of replies.

use vstd::prelude::*;
use vstd::string::*;

verus! {

/// Base URL of the daemon, which mounts every router under `/api`.
pub const DAEMON_BASE_URL: &'static str = "http://127.0.0.1:8000/api";

/// The address of a route of the daemon.
pub open spec fn route(path: Seq<char>) -> Seq<char> {
    "http://127.0.0.1:8000/api"@ + path
}

/// Builds the address of a route of the daemon.
pub fn daemon_url(path: &str) -> (r: String)
    ensures
        r@ == route(path@),
{
    let mut r: String = DAEMON_BASE_URL.to_string();
    r.append(path);
    r
}

/// The codes that report success.
pub open spec fn success_code(code: u16) -> bool {
    200 <= code < 300
}

/// How `reqwest::StatusCode` displays the status code `code`; for a number outside the range of
/// status codes (100 to 999), how its conversion error is displayed.
pub uninterp spec fn status_display(code: u16) -> Seq<char>;

/// `reqwest::StatusCode::is_success`, which holds of the codes from 200 to 299. A number outside
/// the range of status codes (100 to 999) is no success.
#[verifier::external_body]
pub(crate) fn is_success(code: u16) -> (r: bool)
    ensures
        r == success_code(code),
{
    match reqwest::StatusCode::from_u16(code) {
        Ok(status) => status.is_success(),
        Err(_) => false,
    }
}

/// The `Display` form of `reqwest::StatusCode`, or of its conversion error for a number outside
/// the range of status codes. The text depends on the code alone.
#[verifier::external_body]
fn status_text(code: u16) -> (r: String)
    ensures
        r@ == status_display(code),
{
    match reqwest::StatusCode::from_u16(code) {
        Ok(status) => status.to_string(),
        Err(invalid) => invalid.to_string(),
    }
}

/// The report of a step that failed for the reason `reason`.
pub open spec fn failure_text(step: Seq<char>, reason: Seq<char>) -> Seq<char> {
    step + ": "@ + reason
}

/// The report of a request that was answered with a status other than success.
pub open spec fn refusal_text(step: Seq<char>, status: Seq<char>) -> Seq<char> {
    step + " -> "@ + status
}

/// Reports a step that failed.
pub fn failure(step: &str, reason: &str) -> (r: String)
    ensures
        r@ == failure_text(step@, reason@),
{
    let mut r: String = step.to_string();
    r.append(": ");
    r.append(reason);
    r
}

/// A result whose error is taken as its characters.
pub open spec fn report<T>(result: Result<T, String>) -> Result<T, Seq<char>> {
    match result {
        Ok(value) => Ok(value),
        Err(e) => Err(e@),
    }
}

/// The outcome of a step, with the reason of a failure put in context.
pub open spec fn in_context<T>(step: Seq<char>, outcome: Result<T, String>) -> Result<
    T,
    Seq<char>,
> {
    match outcome {
        Ok(value) => Ok(value),
        Err(reason) => Err(failure_text(step, reason@)),
    }
}

/// Puts the reason of a failed step in context.
pub fn checked<T>(step: &str, outcome: Result<T, String>) -> (r: Result<T, String>)
    ensures
        report(r) == in_context(step@, outcome),
{
    match outcome {
        Err(reason) => Err(failure(step, reason.as_str())),
        Ok(value) => Ok(value),
    }
}

/// How a request is made.
#[derive(Copy, Clone, Debug, PartialEq, Eq, Structural)]
pub enum Verb {
    Get,
    Post,
    Delete,
}

/// A request to the daemon, without a body.
pub struct Request {
    pub verb: Verb,
    pub url: String,
}

/// The mathematical content of a [`Request`].
pub struct RequestView {
    pub verb: Verb,
    pub url: Seq<char>,
}

impl View for Request {
    type V = RequestView;

    open spec fn view(&self) -> RequestView {
        RequestView { verb: self.verb, url: self.url@ }
    }
}

/// What came back from a request.
pub enum Reply<T> {
    /// Nothing, for this reason.
    Lost(String),
    /// A status code and a body, or why the body could not be decoded.
    Answered { code: u16, body: Result<T, String> },
}

/// What a request has fetched. Only a reply with a success code has its body read.
pub open spec fn fetch_result<T>(
    step: Seq<char>,
    decoding: Seq<char>,
    reply: Reply<T>,
) -> Result<T, Seq<char>> {
    match reply {
        Reply::Lost(reason) => Err(failure_text(step, reason@)),
        Reply::Answered { code, body } => if success_code(code) {
            in_context(decoding, body)
        } else {
            Err(refusal_text(step, status_display(code)))
        },
    }
}

/// Judges the reply to a request; `step` and `decoding` name the request and the reading of the
/// body in the report of a failure.
pub fn fetched<T>(step: &str, decoding: &str, reply: Reply<T>) -> (r: Result<T, String>)
    ensures
        report(r) == fetch_result(step@, decoding@, reply),
{
    match reply {
        Reply::Lost(reason) => Err(failure(step, reason.as_str())),
        Reply::Answered { code, body } => {
            if is_success(code) {
                checked(decoding, body)
            } else {
                let mut refusal: String = step.to_string();
                refusal.append(" -> ");
                refusal.append(status_text(code).as_str());
                Err(refusal)
            }
        },
    }
}

/// Every route of the daemon lies under one loopback address.
pub proof fn law_route(path: Seq<char>)
    ensures
        route(path) == "http://127.0.0.1:8000/api"@ + path,
{
}

/// A step succeeds with exactly the value it brought, and a failed one is reported with its reason
/// behind its name.
pub proof fn law_step_report<T>(step: Seq<char>, outcome: Result<T, String>)
    ensures
        match outcome {
            Ok(value) => in_context(step, outcome) == Ok::<T, Seq<char>>(value) && report(outcome)
                == Ok::<T, Seq<char>>(value),
            Err(reason) => in_context(step, outcome) == Err::<T, Seq<char>>(
                step + ": "@ + reason@,
            ) && report(outcome) == Err::<T, Seq<char>>(reason@),
        },
{
}

/// A fetch brings a value exactly when the daemon answered with a code from 200 to 299 and that
/// value as its body; otherwise the report tells the three failures apart: no answer, another
/// code, an unreadable body.
pub proof fn law_fetch<T>(step: Seq<char>, decoding: Seq<char>, reply: Reply<T>, value: T)
    ensures
        ({
            let r = fetch_result(step, decoding, reply);
            &&& r == Ok::<T, Seq<char>>(value) <==> (reply matches Reply::Answered { code, body }
                && 200 <= code <= 299 && body == Ok::<T, String>(value))
            &&& reply matches Reply::Lost(reason) ==> r == Err::<T, Seq<char>>(
                step + ": "@ + reason@,
            )
            &&& reply matches Reply::Answered { code, body } ==> {
                &&& code < 200 || 299 < code ==> r == Err::<T, Seq<char>>(
                    step + " -> "@ + status_display(code),
                )
                &&& 200 <= code <= 299 && body is Err ==> r == Err::<T, Seq<char>>(
                    decoding + ": "@ + body->Err_0@,
                )
            }
        }),
{
}

/// The contracts see a request as it is made.
pub proof fn law_request_is_seen_whole(request: Request)
    ensures
        request@.verb == request.verb && request@.url == request.url@,
{
}

/// The codes from 200 to 299 report success, and no others.
pub proof fn law_success_codes(code: u16)
    ensures
        success_code(code) <==> code / 100 == 2,
{
}

} // verus!
