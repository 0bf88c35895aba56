//! The header builder: the header set every call carries, and the
//! validation of the API key as a header value.

use vstd::prelude::*;
use vstd::string::StringExecFns;
use vstd::string::StringSliceAdditionalSpecFns;

use crate::errors::SdkError;

verus! {

/// True of a byte that may stand in an HTTP header value: horizontal tab
/// and every byte from the space upward except delete.
pub open spec fn valid_header_value_byte(b: u8) -> bool {
    b == 9 || (32 <= b && b != 127)
}

/// True of a byte string every byte of which may stand in an HTTP header
/// value.
pub open spec fn valid_header_value(bytes: Seq<u8>) -> bool {
    forall|i: int| 0 <= i < bytes.len() ==> valid_header_value_byte(#[trigger] bytes[i])
}

/// Whether every byte of the string may stand in an HTTP header value.
pub fn is_valid_header_value(s: &str) -> (r: bool)
    ensures
        r == valid_header_value(s.spec_bytes()),
{
    let bytes = s.as_bytes();
    let n = bytes.len();
    let mut i: usize = 0;
    while i < n
        invariant
            n == bytes@.len(),
            bytes@ == s.spec_bytes(),
            0 <= i <= n,
            forall|j: int| 0 <= j < i ==> valid_header_value_byte(#[trigger] bytes@[j]),
        decreases n - i,
    {
        let b = bytes[i];
        if !(b == 9 || (b >= 32 && b != 127)) {
            return false;
        }
        i += 1;
    }
    true
}

/// An API key holding a raw newline byte is no valid header value, so
/// `build_headers` rejects it with `InvalidHeaderValue` rather than
/// truncating it; the same holds of any other control byte.
pub proof fn lemma_newline_is_rejected(bytes: Seq<u8>, i: int)
    requires
        0 <= i < bytes.len(),
        bytes[i] == 10,
    ensures
        !valid_header_value(bytes),
{
    assert(!valid_header_value_byte(bytes[i]));
}

/// The headers a call carries: a fixed user-agent, the identity header
/// holding the API key, and, for signed form-encoded calls, a content-type.
#[derive(Debug)]
pub struct HeaderSet {
    pub user_agent: String,
    pub content_type: Option<String>,
    pub api_key: String,
}

/// What a well-built header set holds for a given API key: the fixed
/// user-agent, the key itself as the identity header, and the form-encoded
/// content-type exactly when one was asked for.
pub open spec fn header_set_wf(h: HeaderSet, api_key: Seq<char>, with_content_type: bool) -> bool {
    &&& h.user_agent@ == "binance-rs"@
    &&& h.api_key@ == api_key
    &&& match h.content_type {
        Some(c) => with_content_type && c@ == "application/x-www-form-urlencoded"@,
        None => !with_content_type,
    }
}

/// Build the header set for a call: rejected with `InvalidHeaderValue`
/// exactly when the API key holds a byte no HTTP header value may hold,
/// never silently truncated.
pub fn build_headers(api_key: &str, with_content_type: bool) -> (r: Result<HeaderSet, SdkError>)
    ensures
        match r {
            Ok(h) => valid_header_value(api_key.spec_bytes()) && header_set_wf(
                h,
                api_key@,
                with_content_type,
            ),
            Err(e) => !valid_header_value(api_key.spec_bytes()) && e
                == SdkError::InvalidHeaderValue,
        },
{
    if !is_valid_header_value(api_key) {
        return Err(SdkError::InvalidHeaderValue);
    }
    let content_type = if with_content_type {
        Some(String::from_str("application/x-www-form-urlencoded"))
    } else {
        None
    };
    Ok(
        HeaderSet {
            user_agent: String::from_str("binance-rs"),
            content_type,
            api_key: String::from_str(api_key),
        },
    )
}

} // verus!
