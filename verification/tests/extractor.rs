use data_intuitive::extract::{get_token_from_headers, strip_bearer, Token};
use data_intuitive::errors::ApiError;
use data_intuitive::guards::auth_precheck;

#[test]
fn test_absent_header_is_absent() {
    assert!(get_token_from_headers(None).is_none());
}

#[test]
fn test_header_without_space_is_absent() {
    assert!(get_token_from_headers(Some("Bearertoken")).is_none());
    assert!(get_token_from_headers(Some("")).is_none());
}

#[test]
fn test_bearer_header_yields_second_field() {
    let t = get_token_from_headers(Some("Bearer abc123")).unwrap();
    assert_eq!(t.0, "abc123");
}

#[test]
fn test_extra_fields_are_discarded() {
    let t = get_token_from_headers(Some("Bearer abc def")).unwrap();
    assert_eq!(t.0, "abc");
}

#[test]
fn test_trailing_space_yields_empty_credential() {
    let t = get_token_from_headers(Some("Bearer ")).unwrap();
    assert_eq!(t.0, "");
}

#[test]
fn test_strip_bearer_prefix() {
    assert_eq!(strip_bearer("Bearer xyz"), "xyz");
    assert_eq!(strip_bearer("xyz"), "xyz");
    assert_eq!(strip_bearer("Bearer"), "Bearer");
    assert_eq!(strip_bearer(""), "");
}

#[test]
fn test_precheck_absent_unauthorized() {
    assert_eq!(auth_precheck(&None).unwrap_err(), ApiError::Unauthorized);
}

#[test]
fn test_precheck_empty_unauthorized() {
    let t = Some(Token(String::new()));
    assert_eq!(auth_precheck(&t).unwrap_err(), ApiError::Unauthorized);
}

#[test]
fn test_precheck_strips_scheme() {
    let t = Some(Token("Bearer abc".to_string()));
    assert_eq!(auth_precheck(&t).unwrap(), "abc");
}
