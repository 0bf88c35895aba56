//! The request dispatcher's verified half: a client that holds the
//! credentials and the base host, and builds each of the six call shapes as
//! a prepared request — the verb, the full URL (signed where the shape asks
//! for it), the header set and the body. The embedding application owns the
//! transport, issues each prepared request exactly once, and hands the
//! response envelope to the decoder.

use vstd::prelude::*;
use vstd::string::StringExecFns;
use vstd::utf8::encode_utf8;

use crate::errors::SdkError;
use crate::headers::{build_headers, header_set_wf, valid_header_value, HeaderSet};
use crate::signer::{opt_chars, sign, signature_chars, signed_message};

verus! {

/// The verb of a prepared request.
#[derive(Clone, Copy, Debug, PartialEq, Eq, Structural)]
pub enum HttpMethod {
    Get,
    Post,
    Put,
    Delete,
}

/// One fully built request, ready for the transport: nothing about it may
/// change after signing.
#[derive(Debug)]
pub struct PreparedRequest {
    pub method: HttpMethod,
    pub url: String,
    /// The header set to attach; `None` on the shape that sends no custom
    /// headers at all.
    pub headers: Option<HeaderSet>,
    pub body: Option<String>,
}

/// The URL of a signed call: host, path, `?`, the payload where one is
/// given, then `&signature=` and the signature of the signed message. An
/// absent payload leaves its place empty — the `?&signature=` form is kept
/// as the service expects it — and is signed as the empty message.
pub open spec fn signed_url_chars(
    host: Seq<char>,
    path: Seq<char>,
    request: Option<Seq<char>>,
    secret: Seq<char>,
) -> Seq<char> {
    host + path + "?"@ + signed_message(request) + "&signature="@ + signature_chars(
        secret,
        signed_message(request),
    )
}

/// The URL of an unsigned call: host and path, with `?` and the payload
/// appended only where a non-empty payload is given.
pub open spec fn unsigned_url_chars(
    host: Seq<char>,
    path: Seq<char>,
    request: Option<Seq<char>>,
) -> Seq<char> {
    match request {
        Some(p) => if p.len() > 0 {
            host + path + "?"@ + p
        } else {
            host + path
        },
        None => host + path,
    }
}

/// The client: an API key (may be empty for public-only use), a secret key
/// used only as the MAC key and never transmitted, and the base host URL.
/// Immutable after construction and cheap to duplicate; the transport that
/// issues its prepared requests lives with the embedding application.
#[derive(Clone)]
pub struct Client {
    api_key: String,
    secret_key: String,
    host: String,
}

impl Client {
    /// The API key, as the identity header will carry it.
    pub closed spec fn spec_api_key(&self) -> Seq<char> {
        self.api_key@
    }

    /// The secret key. No contract of this crate places it in a URL, a
    /// header or a body: it enters signatures only under `hmac_sha256`.
    pub closed spec fn spec_secret_key(&self) -> Seq<char> {
        self.secret_key@
    }

    /// The base host URL every request's URL starts with.
    pub closed spec fn spec_host(&self) -> Seq<char> {
        self.host@
    }

    /// Create a client from caller-supplied credentials and host. An absent
    /// key is kept as the empty string.
    pub fn new(api_key: Option<String>, secret_key: Option<String>, host: String) -> (r: Client)
        ensures
            r.spec_api_key() == match api_key {
                Some(k) => k@,
                None => Seq::<char>::empty(),
            },
            r.spec_secret_key() == match secret_key {
                Some(k) => k@,
                None => Seq::<char>::empty(),
            },
            r.spec_host() == host@,
    {
        Client {
            api_key: match api_key {
                Some(k) => k,
                None => String::new(),
            },
            secret_key: match secret_key {
                Some(k) => k,
                None => String::new(),
            },
            host,
        }
    }

    /// Build the signed URL for a payload: the signature of the signed
    /// message — the payload, or the empty message where none is given — is
    /// always appended, 64 characters long, so even a payloadless signed
    /// call carries a non-empty signature.
    pub fn sign_request(&self, path: &str, request: Option<&str>) -> (url: String)
        ensures
            url@ == signed_url_chars(
                self.spec_host(),
                path@,
                opt_chars(request),
                self.spec_secret_key(),
            ),
            url@.len() == self.spec_host().len() + path@.len() + 1 + signed_message(
                opt_chars(request),
            ).len() + 11 + 64,
    {
        let signature = sign(self.secret_key.as_str(), request);
        let mut url = String::new();
        url.append(self.host.as_str());
        url.append(path);
        url.append("?");
        if let Some(p) = request {
            url.append(p);
        }
        url.append("&signature=");
        url.append(signature.as_str());
        proof {
            reveal_strlit("?");
            reveal_strlit("&signature=");
            assert(url@ =~= signed_url_chars(
                self.spec_host(),
                path@,
                opt_chars(request),
                self.spec_secret_key(),
            ));
        }
        url
    }

    /// A signed GET: signed URL, identity and content-type headers, no
    /// body. Rejected, before anything is sent, exactly when the API key
    /// cannot stand in a header.
    pub fn get_signed(&self, path: &str, request: Option<&str>) -> (r: Result<
        PreparedRequest,
        SdkError,
    >)
        ensures
            match r {
                Ok(pr) => {
                    &&& valid_header_value(encode_utf8(self.spec_api_key()))
                    &&& pr.method == HttpMethod::Get
                    &&& pr.url@ == signed_url_chars(
                        self.spec_host(),
                        path@,
                        opt_chars(request),
                        self.spec_secret_key(),
                    )
                    &&& pr.headers matches Some(h) && header_set_wf(h, self.spec_api_key(), true)
                    &&& pr.body is None
                },
                Err(e) => {
                    &&& !valid_header_value(encode_utf8(self.spec_api_key()))
                    &&& e == SdkError::InvalidHeaderValue
                },
            },
    {
        let headers = match build_headers(self.api_key.as_str(), true) {
            Ok(h) => h,
            Err(e) => return Err(e),
        };
        Ok(
            PreparedRequest {
                method: HttpMethod::Get,
                url: self.sign_request(path, request),
                headers: Some(headers),
                body: None,
            },
        )
    }

    /// A signed POST: signed URL, identity and content-type headers, empty
    /// body — the payload lives in the URL.
    pub fn post_signed(&self, path: &str, request: &str) -> (r: Result<PreparedRequest, SdkError>)
        ensures
            match r {
                Ok(pr) => {
                    &&& valid_header_value(encode_utf8(self.spec_api_key()))
                    &&& pr.method == HttpMethod::Post
                    &&& pr.url@ == signed_url_chars(
                        self.spec_host(),
                        path@,
                        Some(request@),
                        self.spec_secret_key(),
                    )
                    &&& pr.headers matches Some(h) && header_set_wf(h, self.spec_api_key(), true)
                    &&& pr.body is None
                },
                Err(e) => {
                    &&& !valid_header_value(encode_utf8(self.spec_api_key()))
                    &&& e == SdkError::InvalidHeaderValue
                },
            },
    {
        let headers = match build_headers(self.api_key.as_str(), true) {
            Ok(h) => h,
            Err(e) => return Err(e),
        };
        Ok(
            PreparedRequest {
                method: HttpMethod::Post,
                url: self.sign_request(path, Some(request)),
                headers: Some(headers),
                body: None,
            },
        )
    }

    /// A signed DELETE, built exactly as the signed GET is.
    pub fn delete_signed(&self, path: &str, request: Option<&str>) -> (r: Result<
        PreparedRequest,
        SdkError,
    >)
        ensures
            match r {
                Ok(pr) => {
                    &&& valid_header_value(encode_utf8(self.spec_api_key()))
                    &&& pr.method == HttpMethod::Delete
                    &&& pr.url@ == signed_url_chars(
                        self.spec_host(),
                        path@,
                        opt_chars(request),
                        self.spec_secret_key(),
                    )
                    &&& pr.headers matches Some(h) && header_set_wf(h, self.spec_api_key(), true)
                    &&& pr.body is None
                },
                Err(e) => {
                    &&& !valid_header_value(encode_utf8(self.spec_api_key()))
                    &&& e == SdkError::InvalidHeaderValue
                },
            },
    {
        let headers = match build_headers(self.api_key.as_str(), true) {
            Ok(h) => h,
            Err(e) => return Err(e),
        };
        Ok(
            PreparedRequest {
                method: HttpMethod::Delete,
                url: self.sign_request(path, request),
                headers: Some(headers),
                body: None,
            },
        )
    }

    /// An unsigned GET: the payload is appended as a raw query string only
    /// where it is non-empty, and no custom header is attached.
    pub fn get(&self, path: &str, request: Option<&str>) -> (r: PreparedRequest)
        ensures
            r.method == HttpMethod::Get,
            r.url@ == unsigned_url_chars(self.spec_host(), path@, opt_chars(request)),
            r.headers is None,
            r.body is None,
    {
        let mut url = String::new();
        url.append(self.host.as_str());
        url.append(path);
        if let Some(p) = request {
            if !p.is_empty() {
                url.append("?");
                url.append(p);
            }
        }
        proof {
            assert(url@ =~= unsigned_url_chars(self.spec_host(), path@, opt_chars(request)));
        }
        PreparedRequest { method: HttpMethod::Get, url, headers: None, body: None }
    }

    /// An unsigned POST: identity header but no signing and no body.
    pub fn post(&self, path: &str) -> (r: Result<PreparedRequest, SdkError>)
        ensures
            match r {
                Ok(pr) => {
                    &&& valid_header_value(encode_utf8(self.spec_api_key()))
                    &&& pr.method == HttpMethod::Post
                    &&& pr.url@ == self.spec_host() + path@
                    &&& pr.headers matches Some(h) && header_set_wf(h, self.spec_api_key(), false)
                    &&& pr.body is None
                },
                Err(e) => {
                    &&& !valid_header_value(encode_utf8(self.spec_api_key()))
                    &&& e == SdkError::InvalidHeaderValue
                },
            },
    {
        let headers = match build_headers(self.api_key.as_str(), false) {
            Ok(h) => h,
            Err(e) => return Err(e),
        };
        let mut url = String::new();
        url.append(self.host.as_str());
        url.append(path);
        Ok(PreparedRequest { method: HttpMethod::Post, url, headers: Some(headers), body: None })
    }

    /// An unsigned PUT carrying a session token as a `listenKey` body, with
    /// the identity header and no signing.
    pub fn put(&self, path: &str, listen_key: &str) -> (r: Result<PreparedRequest, SdkError>)
        ensures
            match r {
                Ok(pr) => {
                    &&& valid_header_value(encode_utf8(self.spec_api_key()))
                    &&& pr.method == HttpMethod::Put
                    &&& pr.url@ == self.spec_host() + path@
                    &&& pr.headers matches Some(h) && header_set_wf(h, self.spec_api_key(), false)
                    &&& pr.body matches Some(b) && b@ == "listenKey="@ + listen_key@
                },
                Err(e) => {
                    &&& !valid_header_value(encode_utf8(self.spec_api_key()))
                    &&& e == SdkError::InvalidHeaderValue
                },
            },
    {
        let headers = match build_headers(self.api_key.as_str(), false) {
            Ok(h) => h,
            Err(e) => return Err(e),
        };
        let mut url = String::new();
        url.append(self.host.as_str());
        url.append(path);
        let mut data = String::new();
        data.append("listenKey=");
        data.append(listen_key);
        Ok(
            PreparedRequest {
                method: HttpMethod::Put,
                url,
                headers: Some(headers),
                body: Some(data),
            },
        )
    }

    /// An unsigned DELETE carrying a session token as a `listenKey` body,
    /// built exactly as the PUT is.
    pub fn delete(&self, path: &str, listen_key: &str) -> (r: Result<PreparedRequest, SdkError>)
        ensures
            match r {
                Ok(pr) => {
                    &&& valid_header_value(encode_utf8(self.spec_api_key()))
                    &&& pr.method == HttpMethod::Delete
                    &&& pr.url@ == self.spec_host() + path@
                    &&& pr.headers matches Some(h) && header_set_wf(h, self.spec_api_key(), false)
                    &&& pr.body matches Some(b) && b@ == "listenKey="@ + listen_key@
                },
                Err(e) => {
                    &&& !valid_header_value(encode_utf8(self.spec_api_key()))
                    &&& e == SdkError::InvalidHeaderValue
                },
            },
    {
        let headers = match build_headers(self.api_key.as_str(), false) {
            Ok(h) => h,
            Err(e) => return Err(e),
        };
        let mut url = String::new();
        url.append(self.host.as_str());
        url.append(path);
        let mut data = String::new();
        data.append("listenKey=");
        data.append(listen_key);
        Ok(
            PreparedRequest {
                method: HttpMethod::Delete,
                url,
                headers: Some(headers),
                body: Some(data),
            },
        )
    }
}

/// Signed calls that share one client cannot hand each other the wrong
/// signature: the URL built for a payload carries the signature of that
/// payload and of nothing else, whatever other payload is signed with the
/// same secret — so two calls issued concurrently each receive their own.
pub proof fn lemma_signed_requests_no_cross_talk(
    host: Seq<char>,
    path1: Seq<char>,
    path2: Seq<char>,
    payload1: Seq<char>,
    payload2: Seq<char>,
    secret: Seq<char>,
)
    ensures
        signed_url_chars(host, path1, Some(payload1), secret) == host + path1 + "?"@ + payload1
            + "&signature="@ + signature_chars(secret, payload1),
        signed_url_chars(host, path2, Some(payload2), secret) == host + path2 + "?"@ + payload2
            + "&signature="@ + signature_chars(secret, payload2),
{
}

} // verus!
