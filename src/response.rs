//! What a request yields, from what the transport reported: classification
//! of a response by its status code, and decoding of the error bodies that
//! the service sends back.
use vstd::prelude::*;
use vstd::string::StringExecFns;
use crate::errors::{Error, all_details, detail_list, details_match, maps_to};
use crate::json::{Json, decode_json, json_decode};

verus! {

/// What the transport reported for one GET.
pub enum Reply {
    /// No response was obtained: the service could not be reached.
    Unreachable,
    /// A response came, but reading its body failed; holds the description of
    /// the failure.
    BodyUnreadable(String),
    /// A response with its status code and its whole body as text.
    Received { status: u16, body: String },
}

/// Status codes that count as success.
pub open spec fn is_success(status: u16) -> bool {
    200 <= status <= 204
}

/// A response body as it is decoded: an empty body reads as `null`.
pub open spec fn normalized(body: Seq<char>) -> Seq<char> {
    if body.len() == 0 {
        "null"@
    } else {
        body
    }
}

/// What a response with `status` and the body `text` yields. On success, the
/// text to decode into the expected shape. Otherwise the error that the text
/// stands for, or a decoding error where the text is not JSON.
pub open spec fn response_outcome(status: u16, text: Seq<char>, r: Result<String, Error>) -> bool {
    if is_success(status) {
        r matches Ok(t) && t@ == text
    } else {
        match json_decode(text) {
            Some(j) => r matches Err(e) && maps_to(j, e),
            None => r matches Err(Error::SerdeJsonError(_)),
        }
    }
}

/// What a request yields from what the transport reported: an unreachable
/// service and an unreadable body are errors of their own; a response is
/// classified with its empty body read as `null`.
pub open spec fn get_outcome(reply: Reply, r: Result<String, Error>) -> bool {
    match reply {
        Reply::Unreachable => r matches Err(Error::NotExpectedRequestError),
        Reply::BodyUnreadable(d) => r matches Err(Error::HttpError(x)) && x@ == d@,
        Reply::Received { status, body } => response_outcome(status, normalized(body@), r),
    }
}

/// Replaces an empty body by the JSON literal `null`.
pub fn normalize_body(body: String) -> (r: String)
    ensures
        r@ == normalized(body@),
{
    if body.as_str().is_empty() {
        String::from_str("null")
    } else {
        body
    }
}

/// Tells whether a status code counts as success.
pub fn is_success_status(status: u16) -> (r: bool)
    ensures
        r == is_success(status),
{
    200 <= status && status <= 204
}

/// Classifies a response. A success status hands back the body to decode;
/// any other status decodes the body as JSON and maps it onto the error that
/// it stands for.
pub fn parse_response(status_code: u16, body: String) -> (r: Result<String, Error>)
    ensures
        response_outcome(status_code, body@, r),
{
    if is_success_status(status_code) {
        return Ok(body);
    }
    match decode_json(body.as_str()) {
        Ok(json) => Err(Error::from_json(&json)),
        Err(description) => Err(Error::SerdeJsonError(description)),
    }
}

/// What a request yields from what the transport reported for it.
pub fn get(reply: Reply) -> (r: Result<String, Error>)
    ensures
        get_outcome(reply, r),
{
    match reply {
        Reply::Unreachable => Err(Error::NotExpectedRequestError),
        Reply::BodyUnreadable(description) => Err(Error::from_transport(false, description)),
        Reply::Received { status, body } => parse_response(status, normalize_body(body)),
    }
}

/// The same reply, handled twice, yields equal payloads: the outcome depends
/// on the reply alone.
pub proof fn lemma_same_reply_same_payload(
    status: u16,
    body: String,
    first: Result<String, Error>,
    second: Result<String, Error>,
)
    requires
        is_success(status),
        get_outcome(Reply::Received { status, body }, first),
        get_outcome(Reply::Received { status, body }, second),
    ensures
        first matches Ok(a) && second matches Ok(b) && a@ == b@,
{
}

/// An error response whose body has an `errors` array of details yields the
/// detailed error, with as many details as the array holds, equal to them one
/// for one; a body without an `errors` array yields the plain error.
pub proof fn lemma_error_body_round_trip(
    status: u16,
    body: String,
    json: Json,
    r: Result<String, Error>,
)
    requires
        !is_success(status),
        json_decode(normalized(body@)) == Some(json),
        get_outcome(Reply::Received { status, body }, r),
    ensures
        detail_list(json) is Some && all_details(detail_list(json).unwrap()) ==> (r matches Err(
            Error::BrasilCepApiError { errors, .. },
        ) && details_match(errors@, detail_list(json).unwrap())),
        detail_list(json) is None ==> (r matches Err(e) && e is BrasilApiError),
{
}

/// An empty body on a success status is handed on as the JSON literal `null`.
pub proof fn lemma_empty_success_body_is_null(status: u16, body: String, r: Result<String, Error>)
    requires
        is_success(status),
        body@.len() == 0,
        get_outcome(Reply::Received { status, body }, r),
    ensures
        r matches Ok(t) && t@ == "null"@,
{
}

} // verus!
