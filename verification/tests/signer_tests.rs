use binance_core::signer::sign;

use hmac::Mac;

fn hmac_sha256_hex(key: &[u8], msg: &[u8]) -> String {
    let mut mac = <hmac::Hmac<sha2::Sha256> as hmac::Mac>::new_from_slice(key).unwrap();
    mac.update(msg);
    hex::encode(mac.finalize().into_bytes())
}

#[test]
fn sign_is_64_lowercase_hex() {
    let cases = [
        ("", None),
        ("", Some("a=1")),
        ("secret", None),
        ("secret", Some("")),
        ("secret", Some("recvWindow=1234&timestamp=1507725176595")),
        ("a-much-longer-secret-key-than-the-digest-block-size-oh-yes-it-is-really-long", Some("x")),
    ];
    for (key, payload) in cases {
        let s = sign(key, payload);
        assert_eq!(s.len(), 64);
        assert!(s.chars().all(|c| c.is_ascii_hexdigit() && !c.is_ascii_uppercase()));
    }
}

#[test]
fn sign_is_deterministic() {
    let a = sign("secret", Some("a=1"));
    let b = sign("secret", Some("a=1"));
    assert_eq!(a, b);
    let c = sign("secret", None);
    let d = sign("secret", None);
    assert_eq!(c, d);
}

#[test]
fn sign_distinct_payloads_differ() {
    let k = "secret";
    assert_ne!(sign(k, Some("a=1")), sign(k, Some("a=2")));
    assert_ne!(sign(k, Some("a=1")), sign(k, Some("a=1&b=2")));
    assert_ne!(sign(k, Some("symbol=LTCBTC")), sign(k, Some("symbol=BTCUSDT")));
    assert_ne!(sign(k, None), sign(k, Some("a=1")));
}

#[test]
fn sign_known_vector_quick_brown_fox() {
    let s = sign("key", Some("The quick brown fox jumps over the lazy dog"));
    assert_eq!(
        s,
        "f7bc83f430538424b13298e6aa6fb143ef4d59a14946175997479dbc2d1a3cd8"
    );
}

#[test]
fn sign_known_vector_rfc_case_hi_there() {
    // HMAC-SHA256 test vector: a key of twenty 0x0b bytes over "Hi There".
    let key = "\u{0b}".repeat(20);
    let s = sign(&key, Some("Hi There"));
    assert_eq!(
        s,
        "b0344c61d8db38535ca8afceaf0bf12b881dc200c9833da726e9376c2e32cff7"
    );
}

#[test]
fn sign_of_no_payload_signs_the_empty_message() {
    let no_payload = sign("secret", None);
    assert_eq!(no_payload.len(), 64);
    assert!(!no_payload.is_empty());
    // The empty message is signed, not skipped: an empty payload signs the
    // same bytes.
    assert_eq!(no_payload, sign("secret", Some("")));
    assert_eq!(no_payload, hmac_sha256_hex(b"secret", b""));
}

#[test]
fn sign_matches_a_direct_hmac_computation() {
    let s = sign("s", Some("a=1"));
    assert_eq!(s, hmac_sha256_hex(b"s", b"a=1"));
}

#[test]
fn sign_with_empty_key_and_empty_message() {
    let s = sign("", None);
    assert_eq!(s, hmac_sha256_hex(b"", b""));
    assert_eq!(s.len(), 64);
}
