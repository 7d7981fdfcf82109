//! The messages the client reports failures with.

use vstd::prelude::*;
use vstd::string::*;
use crate::text::{concat2, decimal, opt_text};

verus! {

/// The canonical reason phrase that the `http` crate gives a status code, or
/// `<unknown status code>` for a code it has no phrase for.
pub uninterp spec fn http_reason(code: u16) -> Seq<char>;

/// The text of a status code as `reqwest::StatusCode` displays it.
pub open spec fn status_text_spec(code: u16) -> Seq<char> {
    decimal(code as nat) + " "@ + http_reason(code)
}

/// `Display` of `reqwest::StatusCode` (the `http` crate's type): the number,
/// a space and the reason phrase. The phrase table itself is not restated
/// here; it stays behind the name `http_reason`.
#[verifier::external_body]
fn status_display(code: u16) -> (r: String)
    requires
        100 <= code <= 999,
    ensures
        r@ == decimal(code as nat) + " "@ + http_reason(code),
{
    match reqwest::StatusCode::from_u16(code) {
        Ok(status) => status.to_string(),
        Err(_) => String::new(),
    }
}

/// `StatusCode::is_success`: the code lies in 200..=299.
pub fn is_success(code: u16) -> (r: bool)
    ensures
        r == (200 <= code < 300),
{
    200 <= code && code < 300
}

pub open spec fn failure_spec(what: Seq<char>, cause: Seq<char>) -> Seq<char> {
    "Failed to "@ + what + ": "@ + cause
}

/// `Failed to {what}: {cause}`, the shape of every failure the client reports.
pub fn failure(what: &str, cause: &str) -> (r: String)
    ensures
        r@ == failure_spec(what@, cause@),
{
    let mut r = String::from_str("Failed to ");
    r.append(what);
    r.append(": ");
    r.append(cause);
    r
}

pub open spec fn rejection_spec(action: Seq<char>, status: Seq<char>, detail: Option<Seq<char>>) -> Seq<
    char,
> {
    match detail {
        Some(d) => "Failed to "@ + action + ": "@ + d + " ("@ + status + ")"@,
        None => "Failed to "@ + action + ": "@ + status,
    }
}

/// The message for a request the service refused: its `detail` field when the
/// body has one, with the status in parentheses, else the bare status.
pub fn rejection_message(action: &str, status: &str, detail: Option<&str>) -> (r: String)
    ensures
        r@ == rejection_spec(action@, status@, opt_text(detail)),
{
    let mut r = String::from_str("Failed to ");
    r.append(action);
    r.append(": ");
    match detail {
        Some(d) => {
            r.append(d);
            r.append(" (");
            r.append(status);
            r.append(")");
        },
        None => {
            r.append(status);
        },
    }
    r
}

/// The message for a non-2xx response with status `code` whose JSON body had
/// the given `detail` string (if any).
pub fn error_message(action: &str, code: u16, detail: Option<&str>) -> (r: String)
    requires
        100 <= code <= 999,
    ensures
        r@ == rejection_spec(action@, status_text_spec(code), opt_text(detail)),
{
    let status = status_display(code);
    rejection_message(action, status.as_str(), detail)
}

pub open spec fn error_line_spec(message: Seq<char>) -> Seq<char> {
    "Error: "@ + message
}

/// The line printed on stderr before the client stops on a failure.
pub fn error_line(message: &str) -> (r: String)
    ensures
        r@ == error_line_spec(message@),
{
    concat2("Error: ", message)
}

} // verus!
