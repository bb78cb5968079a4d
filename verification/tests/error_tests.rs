use user_service::errors::{classify_fetch_failure, classify_write_failure, ApiError};

#[test]
fn status_codes_follow_the_taxonomy() {
    assert_eq!(ApiError::NotFound(String::from("m")).status_code(), 404);
    assert_eq!(ApiError::BadRequest(String::from("m")).status_code(), 400);
    assert_eq!(ApiError::Unauthorized(String::from("m")).status_code(), 401);
    assert_eq!(ApiError::Forbidden(String::from("m")).status_code(), 403);
    assert_eq!(ApiError::Conflict(String::from("m")).status_code(), 409);
    assert_eq!(ApiError::ServiceUnavailable(String::from("m")).status_code(), 503);
    assert_eq!(ApiError::DatabaseError(String::from("m")).status_code(), 500);
    assert_eq!(ApiError::UnexpectedError(String::from("m")).status_code(), 500);
}

#[test]
fn message_passes_the_carried_text_through() {
    let e = ApiError::BadRequest(String::from("bad field"));
    assert_eq!(e.message().as_str(), "bad field");
}

#[test]
fn external_message_hides_internal_causes() {
    let db = ApiError::DatabaseError(String::from("connection refused on 10.0.0.7"));
    assert_eq!(db.external_message(), "Internal server error");
    let parse = ApiError::UnexpectedError(String::from("bad byte at 17"));
    assert_eq!(parse.external_message(), "Internal server error");
    let seen = ApiError::Conflict(String::from("already exists"));
    assert_eq!(seen.external_message(), "already exists");
}

#[test]
fn fetch_failure_classification() {
    match classify_fetch_failure(true, String::from("row gone"), String::from("cause")) {
        ApiError::NotFound(m) => assert_eq!(m, "row gone"),
        _ => panic!("expected not found"),
    }
    match classify_fetch_failure(false, String::from("row gone"), String::from("io broke")) {
        ApiError::DatabaseError(m) => assert_eq!(m, "io broke"),
        _ => panic!("expected a database error"),
    }
}

#[test]
fn write_failure_classification() {
    match classify_write_failure(true, String::from("taken"), String::from("cause")) {
        ApiError::Conflict(m) => assert_eq!(m, "taken"),
        _ => panic!("expected a conflict"),
    }
    match classify_write_failure(false, String::from("taken"), String::from("io broke")) {
        ApiError::DatabaseError(m) => assert_eq!(m, "io broke"),
        _ => panic!("expected a database error"),
    }
}
