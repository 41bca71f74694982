//! What the client makes of a response: a status between 200 and 299 hands the
//! body on to be read; any other status is an error that carries the body.

use vstd::prelude::*;
use crate::error::{ApiError, ApiErrorModel};

verus! {

/// Whether a status stands for success.
pub open spec fn success(status: u16) -> bool {
    200 <= status <= 299
}

/// Whether a status stands for success.
pub fn is_success(status: u16) -> (b: bool)
    ensures
        b == success(status),
{
    200 <= status && status <= 299
}

/// The characters of the text on either side of a result.
pub open spec fn texts(r: Result<String, String>) -> Result<Seq<char>, Seq<char>> {
    match r {
        Ok(text) => Ok(text@),
        Err(reason) => Err(reason@),
    }
}

/// What `serde_json::from_str` and the pretty `Debug` of the `Value` it gives
/// make of a body: the printed document, or the message with which the body
/// was refused as JSON.
pub uninterp spec fn json_debug_text(body: Seq<char>) -> Result<Seq<char>, Seq<char>>;

/// `serde_json::from_str` for a `serde_json::Value`, the value printed with
/// `{:#?}`, the error with `Display`. Claimed of them: the result depends on
/// the body alone.
#[verifier::external_body]
fn debug_text(body: &str) -> (r: Result<String, String>)
    ensures
        texts(r) == json_debug_text(body@),
{
    match serde_json::from_str::<serde_json::Value>(body) {
        Ok(value) => Ok(format!("{:#?}", value)),
        Err(e) => Err(e.to_string()),
    }
}

/// The error that a response with a failing status stands for, given what its
/// body printed as.
pub open spec fn failure(status: u16, body: Seq<char>, printed: Result<Seq<char>, Seq<char>>)
    -> ApiErrorModel {
    match printed {
        Ok(text) => ApiErrorModel::Remote { status, payload: body, message: text + seq!['\n'] },
        Err(reason) => ApiErrorModel::Transport { message: reason },
    }
}

/// The error of a response with a failing status: the service's error when
/// the body is a JSON document, with the document printed and a line break as
/// its message; a transport error when the body is no JSON document.
pub fn remote_failure(status: u16, body: String, printed: Result<String, String>) -> (e: ApiError)
    ensures
        e@ == failure(status, body@, texts(printed)),
{
    match printed {
        Ok(text) => {
            let mut message = text;
            message.append("\n");
            proof {
                reveal_strlit("\n");
                assert("\n"@ =~= seq!['\n']);
            }
            ApiError::Remote { status, payload: body, message }
        },
        Err(reason) => ApiError::Transport { message: reason },
    }
}

/// Judges a response by its status. A success hands the body back, unread,
/// to be decoded as what the operation expects. Any other status gives an
/// error, and the body is never handed on for decoding.
pub fn success_body(status: u16, body: String) -> (r: Result<String, ApiError>)
    ensures
        success(status) ==> r == Ok::<String, ApiError>(body),
        !success(status) ==> r is Err && r->Err_0@ == failure(
            status,
            body@,
            json_debug_text(body@),
        ),
{
    if is_success(status) {
        Ok(body)
    } else {
        let printed = debug_text(body.as_str());
        Err(remote_failure(status, body, printed))
    }
}

/// Judges the response to an operation that expects no body: success for a
/// status between 200 and 299, else the error of `success_body`.
pub fn expect_success(status: u16, body: String) -> (r: Result<(), ApiError>)
    ensures
        success(status) ==> r is Ok,
        !success(status) ==> r is Err && r->Err_0@ == failure(
            status,
            body@,
            json_debug_text(body@),
        ),
{
    match success_body(status, body) {
        Ok(_) => Ok(()),
        Err(e) => Err(e),
    }
}

} // verus!
