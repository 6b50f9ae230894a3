//! The retry executor driven end to end: one send, one re-authentication,
//! one more send, and never a third attempt.

use seaplane::builder::RequestShape;
use seaplane::builder::TransportOptions;
use seaplane::builder::TransportSupport;
use seaplane::error::ApiErrorKind;
use seaplane::identity::AccessToken;
use seaplane::restrict::HttpEvent;
use seaplane::restrict::Pending;
use seaplane::restrict::RestrictReq;
use seaplane::restrict::Session;
use seaplane::restrict::Step;
use seaplane::restrict::TokenOutcome;

fn token(t: &str) -> AccessToken {
    AccessToken {
        token: t.to_string(),
        tenant: "tnt-1".to_string(),
        subdomain: "pequod".to_string(),
    }
}

/// A facade that already holds a (possibly expired) credential, targeting
/// a single restriction.
fn facade_with_token(tok: &str) -> RestrictReq {
    RestrictReq {
        api_key: "api-key-1".to_string(),
        api: Some("config".to_string()),
        directory: Some("foo/bar".to_string()),
        from_api: None,
        from_dir: None,
        token: Some(token(tok)),
        inner: None,
        identity_url: None,
        metadata_url: None,
        insecure_urls: false,
        invalid_certs: false,
        session: Session::Idle,
    }
}

#[test]
fn retry_once_on_expired_token() {
    let mut f = facade_with_token("expired");
    let mut sends = 0;
    let mut token_fetches = 0;

    // First attempt: built from the cached credential, no identity call.
    let pending = f.get_restriction().unwrap();
    let req1 = match pending {
        Pending::NeedSend(b) => b,
        other => panic!("expected a send demand, got {other:?}"),
    };
    sends += 1;
    assert_eq!(req1.token, "expired");

    // The resource endpoint rejects the token.
    let step = f.provide_response(HttpEvent::Status(401)).unwrap();
    match step {
        Step::Next(Pending::NeedToken) => {}
        other => panic!("expected a token demand, got {other:?}"),
    }

    // The identity endpoint hands out a fresh token.
    token_fetches += 1;
    let pending = f.provide_token(TokenOutcome::Token(token("fresh"))).unwrap();
    let req2 = match pending {
        Pending::NeedSend(b) => b,
        other => panic!("expected a send demand, got {other:?}"),
    };
    sends += 1;
    assert_eq!(req2.token, "fresh");

    // The second attempt succeeds.
    let step = f.provide_response(HttpEvent::Success(None)).unwrap();
    assert!(matches!(step, Step::Done));

    assert_eq!(sends, 2);
    assert_eq!(token_fetches, 1);
}

#[test]
fn no_infinite_loop_on_permanent_unauthorized() {
    let mut f = facade_with_token("rejected");
    let mut sends = 0;
    let mut token_fetches = 0;

    let pending = f.get_restriction().unwrap();
    assert!(matches!(pending, Pending::NeedSend(_)));
    sends += 1;

    let step = f.provide_response(HttpEvent::Status(401)).unwrap();
    assert!(matches!(step, Step::Next(Pending::NeedToken)));

    token_fetches += 1;
    let pending = f.provide_token(TokenOutcome::Token(token("still-rejected"))).unwrap();
    assert!(matches!(pending, Pending::NeedSend(_)));
    sends += 1;

    // The retried attempt is rejected too: the operation fails, nothing
    // more is demanded.
    let err = f.provide_response(HttpEvent::Status(401)).unwrap_err();
    assert_eq!(err, ApiErrorKind::AuthenticationRejected);
    assert!(matches!(f.session, Session::Idle));

    assert_eq!(sends, 2);
    assert_eq!(token_fetches, 1);
}

#[test]
fn old_token_never_reused_after_reauthentication() {
    let mut f = facade_with_token("old-token");

    let Pending::NeedSend(req1) = f.get_restriction().unwrap() else {
        panic!("expected a send demand");
    };
    assert_eq!(req1.token, "old-token");

    f.provide_response(HttpEvent::Status(401)).unwrap();
    let Pending::NeedSend(req2) = f.provide_token(TokenOutcome::Token(token("new-token"))).unwrap()
    else {
        panic!("expected a send demand");
    };
    assert_eq!(req2.token, "new-token");

    // Every request the facade can hand out from here on carries the new
    // credential: the cached descriptor was rebuilt, and later operations
    // reuse it.
    f.provide_response(HttpEvent::Success(None)).unwrap();
    let Pending::NeedSend(req3) = f.get_restriction().unwrap() else {
        panic!("expected a send demand");
    };
    assert_eq!(req3.token, "new-token");
    assert_eq!(f.token.as_ref().unwrap().token, "new-token");
}

#[test]
fn lazy_rebuild_sets_then_builds_once_from_final_values() {
    let mut f = facade_with_token("tok");

    // Prime a cached request, then change the targeting three times.
    let Pending::NeedSend(_) = f.get_restriction().unwrap() else {
        panic!("expected a send demand");
    };
    f.provide_response(HttpEvent::Success(None)).unwrap();
    assert!(f.inner.is_some());

    f.set_api("metadata".to_string()).unwrap();
    assert!(f.inner.is_none());
    f.set_directory("a/b".to_string()).unwrap();
    assert!(f.inner.is_none());
    f.set_from_dir("cursor0".to_string()).unwrap();
    assert!(f.inner.is_none());

    // No demand was issued while setting; the next operation builds one
    // request, from the final values.
    let Pending::NeedSend(req) = f.get_restriction().unwrap() else {
        panic!("expected a send demand");
    };
    assert_eq!(
        req.shape,
        RequestShape::Single { api: "metadata".to_string(), directory: "a/b".to_string() }
    );
    assert_eq!(f.inner.as_ref().unwrap(), &req);
}

#[test]
fn new_requires_a_nonempty_api_key() {
    let opts = TransportOptions { allow_insecure_urls: false, allow_invalid_certs: false };
    let support = TransportSupport { insecure_urls: false, invalid_certs: false };
    let err = RestrictReq::new(None, None, None, opts, support).unwrap_err();
    assert_eq!(err, ApiErrorKind::MissingRequestApiKey);
    let err = RestrictReq::new(Some(String::new()), None, None, opts, support).unwrap_err();
    assert_eq!(err, ApiErrorKind::MissingRequestApiKey);
    let f = RestrictReq::new(Some("k".to_string()), None, None, opts, support).unwrap();
    assert_eq!(f.api_key, "k");
    assert!(f.token.is_none());
    assert!(f.inner.is_none());
}

#[test]
fn first_operation_without_credential_demands_a_token() {
    let opts = TransportOptions { allow_insecure_urls: false, allow_invalid_certs: false };
    let support = TransportSupport { insecure_urls: false, invalid_certs: false };
    let mut f = RestrictReq::new(Some("k".to_string()), None, None, opts, support).unwrap();
    f.set_api("config".to_string()).unwrap();
    let pending = f.get_page().unwrap();
    assert!(matches!(pending, Pending::NeedToken));
    let Pending::NeedSend(req) = f.provide_token(TokenOutcome::Token(token("t0"))).unwrap() else {
        panic!("expected a send demand");
    };
    assert_eq!(req.token, "t0");
}

#[test]
fn token_fetch_failure_fails_the_operation() {
    let opts = TransportOptions { allow_insecure_urls: false, allow_invalid_certs: false };
    let support = TransportSupport { insecure_urls: false, invalid_certs: false };
    let mut f = RestrictReq::new(Some("k".to_string()), None, None, opts, support).unwrap();
    assert!(matches!(f.delete_restriction().unwrap(), Pending::NeedToken));
    let err = f.provide_token(TokenOutcome::Status(503)).unwrap_err();
    assert_eq!(err, ApiErrorKind::ServiceUnavailable);
    assert!(matches!(f.session, Session::Idle));
}

#[test]
fn other_failures_propagate_without_retry() {
    let mut f = facade_with_token("tok");
    assert!(matches!(f.get_restriction().unwrap(), Pending::NeedSend(_)));
    let err = f.provide_response(HttpEvent::Status(404)).unwrap_err();
    assert_eq!(err, ApiErrorKind::ResourceNotFound);
    assert!(matches!(f.session, Session::Idle));

    assert!(matches!(f.set_restriction().unwrap(), Pending::NeedSend(_)));
    let err = f.provide_response(HttpEvent::Transport).unwrap_err();
    assert_eq!(err, ApiErrorKind::TransportFailure);
    assert!(matches!(f.session, Session::Idle));
}

#[test]
fn refresh_token_replaces_the_credential_wholesale() {
    let mut f = facade_with_token("old");
    assert_eq!(f.token_or_refresh(), Some(&"old".to_string()));
    // Prime a cached request under the old credential.
    assert!(matches!(f.get_restriction().unwrap(), Pending::NeedSend(_)));
    f.provide_response(HttpEvent::Success(None)).unwrap();
    assert!(f.inner.is_some());

    f.refresh_token(token("replacement"));
    assert_eq!(f.token_or_refresh(), Some(&"replacement".to_string()));
    assert!(f.inner.is_none());
    let Pending::NeedSend(req) = f.get_restriction().unwrap() else {
        panic!("expected a send demand");
    };
    assert_eq!(req.token, "replacement");
}

#[test]
fn invalid_target_shape_fails_closed() {
    let mut f = facade_with_token("tok");
    // A directory without an API matches no shape.
    f.api = None;
    f.directory = Some("lonely".to_string());
    f.inner = None;
    let err = f.get_restriction().unwrap_err();
    assert_eq!(err, ApiErrorKind::InvalidTargetShape);
    assert!(matches!(f.session, Session::Idle));
}
