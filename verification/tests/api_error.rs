use reso::api::error::{ApiError, ServiceError};

#[test]
fn test_invalid_credentials_error() {
    let error = ApiError::invalid_credentials();
    assert_eq!(error.status_code, 401);
    assert_eq!(error.error.as_str(), "unauthorized");
    assert_eq!(error.message.as_str(), "Invalid credentials.");
}

#[test]
fn test_authentication_required_error() {
    let error = ApiError::authentication_required();
    assert_eq!(error.status_code, 401);
    assert_eq!(error.error.as_str(), "authentication_required");
    assert_eq!(error.message.as_str(), "Authentication required.");
}

#[test]
fn test_session_expired_error() {
    let error = ApiError::session_expired();
    assert_eq!(error.status_code, 401);
    assert_eq!(error.error.as_str(), "session_expired");
    assert_eq!(error.message.as_str(), "The session has expired.");
}

#[test]
fn test_server_error() {
    let error = ApiError::server_error();
    assert_eq!(error.status_code, 500);
    assert_eq!(error.error.as_str(), "server_error");
    assert_eq!(error.message.as_str(), "Something went wrong.");
}

#[test]
fn test_default_error() {
    let error = ApiError::default();
    assert_eq!(error.status_code, 200);
    assert_eq!(error.error.as_str(), "");
    assert_eq!(error.message.as_str(), "");
}

#[test]
fn setup_already_completed_and_bad_request() {
    let e = ApiError::setup_already_completed();
    assert_eq!(e.status_code, 409);
    assert_eq!(e.error, "setup_already_completed");
    assert_eq!(e.message, "Setup has already been completed.");
    let e = ApiError::bad_request();
    assert_eq!(e.status_code, 400);
    assert_eq!(e.error, "bad_request");
    assert_eq!(e.message, "Bad request.");
}

#[test]
fn with_message_replaces_only_the_message() {
    let e = ApiError::bad_request().with_message("nope".to_string());
    assert_eq!(e.status_code, 400);
    assert_eq!(e.error, "bad_request");
    assert_eq!(e.message, "nope");
}

#[test]
fn service_errors_map_to_answers() {
    let e = ApiError::from_service_error(ServiceError::BadRequest("bad name".to_string()));
    assert_eq!((e.status_code, e.error.as_str(), e.message.as_str()), (400, "bad_request", "bad name"));
    let e = ApiError::from_service_error(ServiceError::Conflict("exists".to_string()));
    assert_eq!((e.status_code, e.error.as_str(), e.message.as_str()), (409, "conflict", "exists"));
    let e = ApiError::from_service_error(ServiceError::NotFound("gone".to_string()));
    assert_eq!((e.status_code, e.error.as_str(), e.message.as_str()), (404, "not_found", "gone"));
    let e = ApiError::from_service_error(ServiceError::Internal("disk on fire".to_string()));
    assert_eq!(e, ApiError::server_error());
}
