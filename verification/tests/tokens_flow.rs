use data_intuitive::errors::ApiError;
use data_intuitive::tokens::{
    IdentityProvider, IdentityToken, IdentityVerifier, ASSERTION_LIFETIME_SECS,
};

fn test_verifier() -> IdentityVerifier {
    IdentityVerifier {
        issuer: "service@example.test".to_string(),
        token_audience: "https://exchange.example.test".to_string(),
        service_key: 7,
        service_key_valid: true,
        expected_issuer: "https://issuer.example.test".to_string(),
        expected_audience: "example-project".to_string(),
        provider_keys: vec![40, 41],
    }
}

fn provider() -> IdentityProvider {
    IdentityProvider {
        accepted_service_keys: vec![7],
        assertion_audience: "https://exchange.example.test".to_string(),
        token_issuer: "https://issuer.example.test".to_string(),
        token_audience: "example-project".to_string(),
        signing_key: 41,
        token_lifetime: 3600,
        available: true,
    }
}

#[test]
fn test_mint_exchange_verify_roundtrip() {
    let v = test_verifier();
    let p = provider();
    let t0: i64 = 1_700_000_000;
    let assertion = v.mint_assertion("subject-1", false, t0).unwrap();
    assert_eq!(assertion.claims.issued_at, t0);
    assert_eq!(assertion.claims.expires_at, t0 + ASSERTION_LIFETIME_SECS);
    let token = p.exchange_assertion(&assertion, t0 + 10).unwrap();
    let uid = v.verify_token(&token, t0 + 100).unwrap();
    assert_eq!(uid, "subject-1");
    // past the token's expiry the same token no longer verifies
    let late = token.expires_at;
    assert_eq!(v.verify_token(&token, late).unwrap_err(), ApiError::Unauthorized);
}

#[test]
fn test_expired_assertion_rejected() {
    let v = test_verifier();
    let p = provider();
    let t0: i64 = 1_700_000_000;
    let assertion = v.mint_assertion("subject-1", false, t0).unwrap();
    let err = p
        .exchange_assertion(&assertion, t0 + ASSERTION_LIFETIME_SECS)
        .unwrap_err();
    assert_eq!(err, ApiError::InvalidAssertion);
}

#[test]
fn test_tampered_signature_unauthorized() {
    let v = test_verifier();
    let token = IdentityToken {
        subject: "subject-1".to_string(),
        issuer: "https://issuer.example.test".to_string(),
        audience: "example-project".to_string(),
        expires_at: 2_000_000_000,
        key_id: 999,
    };
    assert_eq!(
        v.verify_token(&token, 1_700_000_000).unwrap_err(),
        ApiError::Unauthorized
    );
}

#[test]
fn test_wrong_audience_unauthorized() {
    let v = test_verifier();
    let token = IdentityToken {
        subject: "subject-1".to_string(),
        issuer: "https://issuer.example.test".to_string(),
        audience: "other-project".to_string(),
        expires_at: 2_000_000_000,
        key_id: 41,
    };
    assert_eq!(
        v.verify_token(&token, 1_700_000_000).unwrap_err(),
        ApiError::Unauthorized
    );
}

#[test]
fn test_malformed_signing_key_is_signing_error() {
    let mut v = test_verifier();
    v.service_key_valid = false;
    let err = v.mint_assertion("subject-1", false, 1_700_000_000).unwrap_err();
    assert_eq!(err, ApiError::SigningError);
}

#[test]
fn test_unreachable_provider() {
    let v = test_verifier();
    let mut p = provider();
    p.available = false;
    let a = v.mint_assertion("subject-1", false, 1_700_000_000).unwrap();
    let err = p.exchange_assertion(&a, 1_700_000_010).unwrap_err();
    assert_eq!(err, ApiError::ProviderUnavailable);
}

#[test]
fn test_unknown_service_key_rejected() {
    let mut v = test_verifier();
    v.service_key = 8;
    let p = provider();
    let a = v.mint_assertion("subject-1", false, 1_700_000_000).unwrap();
    let err = p.exchange_assertion(&a, 1_700_000_010).unwrap_err();
    assert_eq!(err, ApiError::InvalidAssertion);
}
