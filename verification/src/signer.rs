//! The signer: a symmetric-key message signature over a canonical query
//! string, rendered as lowercase hexadecimal.
//!
//! The signature is deterministic in the secret key and the payload alone:
//! no timestamp or other hidden input enters the computation, so concurrent
//! calls that share one client cannot hand each other the wrong signature.
//! A call without a payload signs the empty message rather than skipping
//! the signature.

use vstd::prelude::*;
use vstd::utf8::encode_utf8;

use crate::encoding::{hex_encode_lower, hex_of, is_lower_hex_char, lemma_hex_of_charset};

verus! {

/// The HMAC-SHA256 digest of a message under a key. The digest depends on
/// the key and the message alone; its value is stated nowhere in this
/// crate, only the trusted wrapper below ties it to the outside
/// computation.
pub uninterp spec fn hmac_sha256(key: Seq<u8>, msg: Seq<u8>) -> Seq<u8>;

/// Relies on hmac::Hmac over sha2::Sha256: the digest is a function of the
/// key and the message alone and is 32 bytes long; a key of any length is
/// accepted, so initialization cannot fail.
#[verifier::external_body]
fn hmac_sha256_digest(key: &[u8], msg: &[u8]) -> (r: Vec<u8>)
    ensures
        r@ == hmac_sha256(key@, msg@),
        r@.len() == 32,
{
    let mut mac = <hmac::Hmac<sha2::Sha256> as hmac::Mac>::new_from_slice(key)
        .expect("HMAC-SHA256 accepts a key of any length");
    hmac::Mac::update(&mut mac, msg);
    hmac::Mac::finalize(mac).into_bytes().to_vec()
}

/// The view of an optional payload string.
pub open spec fn opt_chars(request: Option<&str>) -> Option<Seq<char>> {
    match request {
        Some(p) => Some(p@),
        None => None,
    }
}

/// The signature of a payload under a secret key, both given as the
/// character strings the caller holds: the lowercase hexadecimal rendering
/// of the HMAC-SHA256 digest of the payload's bytes under the key's bytes.
pub open spec fn signature_chars(secret: Seq<char>, payload: Seq<char>) -> Seq<char> {
    hex_of(hmac_sha256(encode_utf8(secret), encode_utf8(payload)))
}

/// The message a request signs: its payload where one is given, and the
/// empty message where none is. An absent payload is signed, not skipped.
pub open spec fn signed_message(request: Option<Seq<char>>) -> Seq<char> {
    match request {
        Some(p) => p,
        None => Seq::<char>::empty(),
    }
}

/// Sign an optional query payload with the secret key: always a
/// 64-character lowercase hexadecimal string, determined by the key and
/// the payload alone.
pub fn sign(secret_key: &str, request: Option<&str>) -> (r: String)
    ensures
        r@ == signature_chars(secret_key@, signed_message(opt_chars(request))),
        r@.len() == 64,
        forall|i: int| 0 <= i < r@.len() ==> is_lower_hex_char(#[trigger] r@[i]),
{
    let digest = match request {
        Some(p) => hmac_sha256_digest(secret_key.as_bytes(), p.as_bytes()),
        None => {
            let empty: Vec<u8> = Vec::new();
            hmac_sha256_digest(secret_key.as_bytes(), empty.as_slice())
        },
    };
    proof {
        lemma_hex_of_charset(digest@);
    }
    hex_encode_lower(digest.as_slice())
}

} // verus!
