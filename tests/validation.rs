use jsonwebtoken::jwk::JwkSet;
use mega_auth::errors::AuthError;
use mega_auth::flow::verify_identity;
use mega_auth::provider::ExchangeError;
use mega_auth::token::{claims_from_json, validate_id_token, ValidationError};

const HEADER_NO_KID: &str = "eyJhbGciOiJSUzI1NiIsInR5cCI6IkpXVCJ9";
const HEADER_KID_K1: &str = "eyJhbGciOiJSUzI1NiIsInR5cCI6IkpXVCIsImtpZCI6ImsxIn0";

fn key_set(json: &str) -> JwkSet {
    serde_json::from_str(json).unwrap()
}

#[test]
fn token_without_parts_has_malformed_header() {
    let jwks = key_set(r#"{"keys":[]}"#);
    assert_eq!(validate_id_token("abc", &jwks, "cid"), Err(ValidationError::MalformedHeader));
    assert_eq!(validate_id_token("a.b", &jwks, "cid"), Err(ValidationError::MalformedHeader));
}

#[test]
fn token_without_key_id_is_rejected() {
    let jwks = key_set(r#"{"keys":[]}"#);
    let token = format!("{}.e30.c2ln", HEADER_NO_KID);
    assert_eq!(validate_id_token(&token, &jwks, "cid"), Err(ValidationError::MissingKeyId));
}

#[test]
fn token_with_unknown_key_id_is_rejected() {
    let jwks = key_set(r#"{"keys":[{"kty":"RSA","kid":"other","n":"AQAB","e":"AQAB"}]}"#);
    let token = format!("{}.e30.c2ln", HEADER_KID_K1);
    assert_eq!(validate_id_token(&token, &jwks, "cid"), Err(ValidationError::UnknownKeyId));
}

#[test]
fn token_with_malformed_key_is_rejected() {
    let jwks = key_set(r#"{"keys":[{"kty":"RSA","kid":"k1","n":"!!!","e":"AQAB"}]}"#);
    let token = format!("{}.e30.c2ln", HEADER_KID_K1);
    assert_eq!(validate_id_token(&token, &jwks, "cid"), Err(ValidationError::MalformedKey));
}

#[test]
fn token_with_bad_signature_is_rejected() {
    let jwks = key_set(r#"{"keys":[{"kty":"RSA","kid":"k1","n":"AQAB","e":"AQAB"}]}"#);
    let token = format!("{}.e30.c2ln", HEADER_KID_K1);
    assert_eq!(validate_id_token(&token, &jwks, "cid"), Err(ValidationError::Rejected));
}

#[test]
fn missing_key_set_is_an_internal_failure() {
    assert_eq!(verify_identity("a.b.c", None, "cid"), Err(AuthError::KeySetUnavailable));
    let jwks = key_set(r#"{"keys":[]}"#);
    assert_eq!(
        verify_identity("abc", Some(&jwks), "cid"),
        Err(AuthError::InvalidToken(ValidationError::MalformedHeader))
    );
}

#[test]
fn claims_are_read_from_json() {
    let v: serde_json::Value = serde_json::from_str(
        r#"{"sub":"u-1","email":"a@b.c","iss":"https://issuer","aud":"cid","exp":1700000000}"#,
    )
    .unwrap();
    let c = claims_from_json(&v, "cid").unwrap();
    assert_eq!(c.sub, "u-1");
    assert_eq!(c.email, Some("a@b.c".to_string()));
    assert_eq!(c.iss, "https://issuer");
    assert_eq!(c.aud, "cid");
    assert_eq!(c.exp, 1700000000);
}

#[test]
fn claims_without_email_are_accepted() {
    let v: serde_json::Value =
        serde_json::from_str(r#"{"sub":"u-1","iss":"i","aud":"cid","exp":5}"#).unwrap();
    assert_eq!(claims_from_json(&v, "cid").unwrap().email, None);
}

#[test]
fn claims_without_subject_or_with_other_audience_are_rejected() {
    let no_sub: serde_json::Value =
        serde_json::from_str(r#"{"iss":"i","aud":"cid","exp":5}"#).unwrap();
    assert_eq!(claims_from_json(&no_sub, "cid"), Err(ValidationError::Rejected));
    let other_aud: serde_json::Value =
        serde_json::from_str(r#"{"sub":"u","iss":"i","aud":"other","exp":5}"#).unwrap();
    assert_eq!(claims_from_json(&other_aud, "cid"), Err(ValidationError::Rejected));
    let bad_exp: serde_json::Value =
        serde_json::from_str(r#"{"sub":"u","iss":"i","aud":"cid","exp":"soon"}"#).unwrap();
    assert_eq!(claims_from_json(&bad_exp, "cid"), Err(ValidationError::Rejected));
}

#[test]
fn error_status_codes() {
    assert_eq!(AuthError::Exchange(ExchangeError::Rejected).status_code(), 400);
    assert_eq!(AuthError::Exchange(ExchangeError::Transport).status_code(), 502);
    assert_eq!(AuthError::Exchange(ExchangeError::Malformed).status_code(), 502);
    assert_eq!(AuthError::InvalidState.status_code(), 400);
    assert_eq!(AuthError::KeySetUnavailable.status_code(), 500);
    assert_eq!(AuthError::InvalidToken(ValidationError::MalformedKey).status_code(), 401);
    assert_eq!(AuthError::RefreshRejected.status_code(), 401);
    assert_eq!(AuthError::Storage.status_code(), 500);
    assert_eq!(AuthError::Issuer.status_code(), 500);
}

#[test]
fn failed_checks_reject_the_token() {
    let err = jsonwebtoken::errors::Error::from(jsonwebtoken::errors::ErrorKind::ExpiredSignature);
    assert_eq!(
        mega_auth::token::claims_from_decoded(Err(err), "cid"),
        Err(ValidationError::Rejected)
    );
    let v: serde_json::Value =
        serde_json::from_str(r#"{"sub":"u-1","iss":"i","aud":"cid","exp":5}"#).unwrap();
    assert_eq!(mega_auth::token::claims_from_decoded(Ok(v), "cid").unwrap().sub, "u-1");
}

#[test]
fn claims_with_non_string_email_have_no_email() {
    let v: serde_json::Value =
        serde_json::from_str(r#"{"sub":"u","iss":"i","aud":"cid","exp":5,"email":7}"#).unwrap();
    assert_eq!(claims_from_json(&v, "cid").unwrap().email, None);
}
