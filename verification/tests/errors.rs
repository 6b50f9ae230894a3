//! Status classification and the lock service's error mapping.

use seaplane::error::check_status;
use seaplane::error::classify_status;
use seaplane::error::ApiErrorKind;
use seaplane::locks::error::map_error;
use seaplane::locks::error::ErrorResponse;
use seaplane::locks::error::LocksError;
use seaplane::locks::error::LocksErrorKind;

#[test]
fn every_mapped_status_gets_its_kind() {
    assert_eq!(classify_status(400), ApiErrorKind::BadRequest);
    assert_eq!(classify_status(401), ApiErrorKind::AuthenticationRejected);
    assert_eq!(classify_status(404), ApiErrorKind::ResourceNotFound);
    assert_eq!(classify_status(409), ApiErrorKind::ResourceConflict);
    assert_eq!(classify_status(500), ApiErrorKind::InternalServiceError);
    assert_eq!(classify_status(503), ApiErrorKind::ServiceUnavailable);
    assert_eq!(classify_status(418), ApiErrorKind::UnclassifiedHttpStatus(418));
}

#[test]
fn check_status_accepts_exactly_2xx() {
    assert!(check_status(200).is_ok());
    assert!(check_status(204).is_ok());
    assert!(check_status(299).is_ok());
    assert_eq!(check_status(300).unwrap_err(), ApiErrorKind::UnclassifiedHttpStatus(300));
    assert_eq!(check_status(199).unwrap_err(), ApiErrorKind::UnclassifiedHttpStatus(199));
    assert_eq!(check_status(401).unwrap_err(), ApiErrorKind::AuthenticationRejected);
}

fn body(status: u16) -> ErrorResponse {
    ErrorResponse { status, title: "Conflict".to_string(), detail: None }
}

#[test]
fn lock_status_codes_map_to_their_kinds() {
    assert_eq!(LocksErrorKind::from(Some(400)), LocksErrorKind::InvalidRequest);
    assert_eq!(LocksErrorKind::from(Some(401)), LocksErrorKind::NotLoggedIn);
    assert_eq!(LocksErrorKind::from(Some(404)), LocksErrorKind::LockNotFound);
    assert_eq!(LocksErrorKind::from(Some(409)), LocksErrorKind::LockAlreadyHeld);
    assert_eq!(LocksErrorKind::from(Some(500)), LocksErrorKind::InternalError);
    assert_eq!(LocksErrorKind::from(Some(503)), LocksErrorKind::ServiceUnavailable);
    assert_eq!(LocksErrorKind::from(Some(418)), LocksErrorKind::UnimplementedHttpStatus(418));
    assert_eq!(LocksErrorKind::from(None), LocksErrorKind::Unknown);
}

#[test]
fn map_error_passes_success_and_wraps_errors() {
    assert_eq!(map_error(200, body(200)).unwrap(), 200);
    assert_eq!(map_error(302, body(302)).unwrap(), 302);
    let err = map_error(409, body(409)).unwrap_err();
    assert_eq!(err.kind, LocksErrorKind::LockAlreadyHeld);
    assert_eq!(err.body.title, "Conflict");
    let err = map_error(500, body(500)).unwrap_err();
    assert_eq!(err.kind, LocksErrorKind::InternalError);
}

#[test]
fn lock_errors_compare_by_kind_alone() {
    let a = LocksError {
        body: ErrorResponse { status: 409, title: "one".to_string(), detail: None },
        kind: LocksErrorKind::LockAlreadyHeld,
    };
    let b = LocksError {
        body: ErrorResponse {
            status: 409,
            title: "another".to_string(),
            detail: Some("text".to_string()),
        },
        kind: LocksErrorKind::LockAlreadyHeld,
    };
    let c = LocksError { body: a.body.clone(), kind: LocksErrorKind::LockNotFound };
    assert!(a == b);
    assert!(a != c);
}

#[test]
fn lock_error_messages_join_title_and_detail() {
    let plain = LocksError {
        body: ErrorResponse { status: 404, title: "Not Found".to_string(), detail: None },
        kind: LocksErrorKind::LockNotFound,
    };
    assert_eq!(plain.message(), "Not Found");
    let detailed = LocksError {
        body: ErrorResponse {
            status: 404,
            title: "Not Found".to_string(),
            detail: Some("no such lock".to_string()),
        },
        kind: LocksErrorKind::LockNotFound,
    };
    assert_eq!(detailed.message(), "Not Found - no such lock");
}
