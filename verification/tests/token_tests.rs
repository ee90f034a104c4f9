use base64::Engine;
use base64::engine::general_purpose::{URL_SAFE, URL_SAFE_NO_PAD};

use edge_translate::Token;

fn jwt_with_payload(payload: &[u8]) -> String {
    format!("header.{}.signature", URL_SAFE.encode(payload))
}

#[test]
fn exp_claim_governs_expiry() {
    let jwt = jwt_with_payload(br#"{"exp":1700000000}"#);
    let token = Token::from_jwt_at(&jwt, 5);
    assert!(!token.is_expired_at(3));
    assert!(!token.is_expired_at(1700000000));
    assert!(token.is_expired_at(1700000001));
}

#[test]
fn exp_claim_ignores_wrap_time() {
    let jwt = jwt_with_payload(br#"{"exp":1000}"#);
    let early = Token::from_jwt_at(&jwt, 1);
    let late = Token::from_jwt_at(&jwt, 999_999);
    assert!(!early.is_expired_at(1000));
    assert!(early.is_expired_at(1001));
    assert!(!late.is_expired_at(1000));
    assert!(late.is_expired_at(1001));
}

#[test]
fn malformed_token_falls_back_to_short_lifetime() {
    let token = Token::from_jwt_at("not-a-jwt", 1000);
    assert!(!token.is_expired_at(1600));
    assert!(token.is_expired_at(1601));
}

#[test]
fn invalid_base64_falls_back() {
    let token = Token::from_jwt_at("a.!!!!.b", 1000);
    assert!(!token.is_expired_at(1600));
    assert!(token.is_expired_at(1601));
}

#[test]
fn unpadded_payload_falls_back() {
    // The decoder wants padded base64url; an unpadded segment whose length
    // needs padding cannot decode.
    let seg = URL_SAFE_NO_PAD.encode(br#"{"exp":12}"#);
    assert!(seg.len() % 4 != 0);
    let token = Token::from_jwt_at(&format!("h.{}.s", seg), 1000);
    assert!(!token.is_expired_at(1600));
    assert!(token.is_expired_at(1601));
}

#[test]
fn payload_that_is_not_json_falls_back() {
    let token = Token::from_jwt_at(&jwt_with_payload(b"hello world!"), 200);
    assert!(!token.is_expired_at(800));
    assert!(token.is_expired_at(801));
}

#[test]
fn payload_without_exp_falls_back() {
    let token = Token::from_jwt_at(&jwt_with_payload(br#"{"iat":5}"#), 200);
    assert!(!token.is_expired_at(800));
    assert!(token.is_expired_at(801));
}

#[test]
fn fractional_exp_falls_back() {
    let token = Token::from_jwt_at(&jwt_with_payload(br#"{"exp":1.5}"#), 200);
    assert!(!token.is_expired_at(800));
    assert!(token.is_expired_at(801));
}

#[test]
fn negative_exp_falls_back() {
    let token = Token::from_jwt_at(&jwt_with_payload(br#"{"exp":-3}"#), 200);
    assert!(!token.is_expired_at(800));
    assert!(token.is_expired_at(801));
}

#[test]
fn last_exp_member_wins() {
    // Value-based JSON decoding keeps the later of two equal keys.
    let token = Token::from_jwt_at(&jwt_with_payload(br#"{"exp":10,"exp":20}"#), 200);
    assert!(!token.is_expired_at(20));
    assert!(token.is_expired_at(21));
}

#[test]
fn wall_clock_expiry() {
    let future = Token::from_jwt(&jwt_with_payload(br#"{"exp":99999999999}"#));
    assert!(!future.is_expired());
    let past = Token::from_jwt(&jwt_with_payload(br#"{"exp":1}"#));
    assert!(past.is_expired());
}

#[test]
fn credential_is_kept_verbatim() {
    let jwt = jwt_with_payload(br#"{"exp":7}"#);
    let token = Token::from_jwt_at(&jwt, 0);
    assert_eq!(token.credential(), &jwt);
}

#[test]
fn second_segment_splits_like_the_wire_format() {
    assert_eq!(edge_translate::second_segment("a.b.c"), "b");
    assert_eq!(edge_translate::second_segment("a.b"), "b");
    assert_eq!(edge_translate::second_segment("a."), "");
    assert_eq!(edge_translate::second_segment(".b"), "b");
    assert_eq!(edge_translate::second_segment("abc"), "");
    assert_eq!(edge_translate::second_segment(""), "");
    assert_eq!(edge_translate::second_segment("x.y.z.w"), "y");
}
