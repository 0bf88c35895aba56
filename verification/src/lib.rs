//! Core of a signed-request dispatch layer for a remote trading-platform
//! REST API: canonical signed-URL construction, HMAC-SHA256 signatures,
//! authentication headers, and classification of HTTP responses into a
//! closed error taxonomy. The transport itself (issuing the HTTP exchange)
//! is left to the embedding application; this crate builds each request and
//! decodes each response, and its behaviour is verified.

pub mod client;
pub mod decoder;
pub mod encoding;
pub mod errors;
pub mod headers;
pub mod signer;
pub mod symbols;
