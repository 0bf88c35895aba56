//! The response decoder: a state machine over the HTTP status that turns a
//! response envelope — the status paired with the body text, which the
//! transport reads exactly once — into the body for the caller to decode,
//! or into one value of the error taxonomy.

use vstd::prelude::*;
use vstd::string::StringExecFns;

use crate::errors::SdkError;

verus! {

/// What decoding a response body as a structured platform error returns:
/// the numeric `code` and the string `msg` of the JSON object the text
/// holds, or nothing where the text is no such object. The outcome depends
/// on the text alone; its value is stated nowhere in this crate, only the
/// trusted wrapper below ties it to the outside computation.
pub uninterp spec fn platform_error_of(text: Seq<char>) -> Option<(i64, Seq<char>)>;

/// Relies on serde_json: parsing a text as a JSON value and reading its
/// `code` and `msg` fields is deterministic in the text. Nothing is said of
/// the message carried on failure; it is diagnostic only.
#[verifier::external_body]
fn parse_platform_error(text: &str) -> (r: Result<(i64, String), String>)
    ensures
        match r {
            Ok(p) => platform_error_of(text@) matches Some(q) && q.0 == p.0 && q.1 == p.1@,
            Err(_) => platform_error_of(text@) is None,
        },
{
    let v: serde_json::Value = match serde_json::from_str(text) {
        Ok(v) => v,
        Err(e) => return Err(format!("{}", e)),
    };
    let code = match v.get("code").and_then(serde_json::Value::as_i64) {
        Some(c) => c,
        None => return Err(String::from("no integer `code` field")),
    };
    let msg = match v.get("msg").and_then(serde_json::Value::as_str) {
        Some(m) => String::from(m),
        None => return Err(String::from("no string `msg` field")),
    };
    Ok((code, msg))
}

/// Classify a response. `200` hands the body back for the caller's typed
/// decode; `500`, `503` and `401` map to their fixed error kinds whatever
/// the body holds; `400` carries a structured platform error when its body
/// decodes as one and a deserialization failure otherwise; every other
/// status is unexpected and keeps its body verbatim.
pub fn decode_response(status: u16, body: String) -> (r: Result<String, SdkError>)
    ensures
        status == 200 ==> (r matches Ok(b) && b@ == body@),
        status == 500 ==> (r matches Err(e) && e matches SdkError::ServerError(m) && m@
            == "Internal Server Error"@),
        status == 503 ==> (r matches Err(e) && e == SdkError::ServerUnavailable),
        status == 401 ==> (r matches Err(e) && e == SdkError::Unauthorized),
        status == 400 ==> match platform_error_of(body@) {
            Some(pe) => r matches Err(e) && e matches SdkError::PlatformError(c, m) && c == pe.0
                && m@ == pe.1,
            None => r matches Err(e) && e matches SdkError::DeserializationError(b, _) && b@
                == body@,
        },
        !(status == 200 || status == 500 || status == 503 || status == 401 || status == 400) ==> (r
            matches Err(e) && e matches SdkError::UnexpectedStatus(s, b) && s == status && b@
            == body@),
{
    if status == 200 {
        Ok(body)
    } else if status == 500 {
        Err(SdkError::ServerError(String::from_str("Internal Server Error")))
    } else if status == 503 {
        Err(SdkError::ServerUnavailable)
    } else if status == 401 {
        Err(SdkError::Unauthorized)
    } else if status == 400 {
        match parse_platform_error(body.as_str()) {
            Ok((code, msg)) => Err(SdkError::PlatformError(code, msg)),
            Err(cause) => Err(SdkError::DeserializationError(body, cause)),
        }
    } else {
        Err(SdkError::UnexpectedStatus(status, body))
    }
}

} // verus!
