//! Building token requests and interpreting the identity service's answers.

use seaplane::error::ApiErrorKind;
use seaplane::identity::interpret_access_token;
use seaplane::identity::TokenRequest;
use seaplane::identity::IDENTITY_API_URL;

#[test]
fn access_token() {
    // A created (201) response's body is the token itself.
    let req = TokenRequest::builder().api_key("abc123".to_string()).base_url(
        "http://127.0.0.1:5000".to_string(),
    ).build().unwrap();
    assert_eq!(req.api_key, "abc123");
    assert_eq!(req.endpoint_url, "http://127.0.0.1:5000/v1/token");
    assert!(req.https_only);
    assert!(!req.accept_invalid_certs);

    let resp = interpret_access_token(201, "abc.123.def".to_string()).unwrap();
    assert_eq!(resp, "abc.123.def");
}

#[test]
fn default_endpoint_is_the_identity_service() {
    let req = TokenRequest::builder().api_key("abc123".to_string()).build().unwrap();
    assert_eq!(IDENTITY_API_URL, "https://flightdeck.cplane.cloud/");
    assert_eq!(req.endpoint_url, "https://flightdeck.cplane.cloud/v1/token");
}

#[test]
fn base_url_with_trailing_slash_joins_cleanly() {
    let req = TokenRequest::builder().api_key("k".to_string()).base_url(
        "https://identity.local/".to_string(),
    ).build().unwrap();
    assert_eq!(req.endpoint_url, "https://identity.local/v1/token");
}

#[test]
fn missing_api_key_fails_at_build_time() {
    let err = TokenRequest::builder().build().unwrap_err();
    assert_eq!(err, ApiErrorKind::MissingRequestApiKey);
}

#[test]
fn transport_overrides_reach_the_descriptor() {
    let req = TokenRequest::builder().api_key("k".to_string()).allow_http(true)
        .allow_invalid_certs(true).build().unwrap();
    assert!(!req.https_only);
    assert!(req.accept_invalid_certs);
}

#[test]
fn non_success_statuses_are_classified() {
    assert_eq!(
        interpret_access_token(401, String::new()).unwrap_err(),
        ApiErrorKind::AuthenticationRejected
    );
    assert_eq!(
        interpret_access_token(503, String::new()).unwrap_err(),
        ApiErrorKind::ServiceUnavailable
    );
    assert_eq!(
        interpret_access_token(418, String::new()).unwrap_err(),
        ApiErrorKind::UnclassifiedHttpStatus(418)
    );
}
