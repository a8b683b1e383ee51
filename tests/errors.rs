use users_auth::errors::{is_unique_code, DbFault, HttpError};
use users_auth::handlers::{
    fcm_registration_outcome, login_outcome, require_user, FcmRegistration, UserLookup,
};
use users_auth::models::User;

fn parts(e: HttpError) -> (u16, String, Option<Vec<String>>) {
    let r = e.into_response();
    (r.status, r.error, r.fields)
}

#[test]
fn storage_faults_are_classified() {
    let dup = HttpError::DbError(DbFault::Database { code: Some("23505".to_string()) });
    assert_eq!(parts(dup), (409, "duplicate_row".to_string(), None));
    let other = HttpError::DbError(DbFault::Database { code: Some("42P01".to_string()) });
    assert_eq!(parts(other), (500, "err_code_42P01".to_string(), None));
    let nocode = HttpError::DbError(DbFault::Database { code: None });
    assert_eq!(parts(nocode), (500, "generic_db_error".to_string(), None));
    assert_eq!(parts(HttpError::DbError(DbFault::Other)), (500, "internal_server_error".to_string(), None));
}

#[test]
fn request_errors_are_classified() {
    assert_eq!(parts(HttpError::invalid_body(422)), (400, "invalid_body".to_string(), None));
    let fields = vec!["email".to_string(), "password".to_string()];
    assert_eq!(
        parts(HttpError::InvalidFieldsError(fields.clone())),
        (400, "invalid_fields".to_string(), Some(fields))
    );
    assert_eq!(parts(HttpError::Simple(418, "teapot".to_string())), (418, "teapot".to_string(), None));
    assert_eq!(parts(HttpError::async_error()), (500, "async_error".to_string(), None));
    assert_eq!(parts(HttpError::bad_jwt()), (500, "bad_jwt".to_string(), None));
    assert_eq!(parts(HttpError::internal()), (500, "internal_server_error".to_string(), None));
    assert_eq!(parts(HttpError::user_not_found()), (404, "user_not_found".to_string(), None));
    assert_eq!(parts(HttpError::account_unavailable()), (400, "account_unavailable".to_string(), None));
}

#[test]
fn unique_code_is_recognised() {
    assert!(is_unique_code(&"23505".to_string()));
    assert!(!is_unique_code(&"23503".to_string()));
    assert!(!is_unique_code(&"".to_string()));
}

#[test]
fn duplicate_registration_is_success() {
    assert!(matches!(fcm_registration_outcome(Ok(())), Ok(FcmRegistration::Added)));
    let dup = Err(DbFault::Database { code: Some("23505".to_string()) });
    assert!(matches!(fcm_registration_outcome(dup), Ok(FcmRegistration::AlreadyPresent)));
    let other = Err(DbFault::Database { code: Some("40001".to_string()) });
    match fcm_registration_outcome(other) {
        Err(e) => assert_eq!(parts(e).0, 500),
        Ok(_) => panic!("a non-unique fault is not a success"),
    }
    assert!(fcm_registration_outcome(Err(DbFault::Other)).is_err());
}

#[test]
fn two_registrations_of_one_pair_both_succeed() {
    let first = fcm_registration_outcome(Ok(()));
    let second = fcm_registration_outcome(Err(DbFault::Database { code: Some("23505".to_string()) }));
    assert!(first.is_ok() && second.is_ok());
}

fn someone() -> User {
    User {
        email: "a@b.c".to_string(),
        name: "Ada".to_string(),
        surname: "L".to_string(),
        id: "id1".to_string(),
        password: "$argon2id$x".to_string(),
        propic_url: None,
    }
}

#[test]
fn credentials_need_a_matching_password() {
    match login_outcome(Some(someone()), true) {
        Ok(u) => assert_eq!(u.id, "id1"),
        Err(_) => panic!("a matching password admits the user"),
    }
    for (user, matches) in [(Some(someone()), false), (None, true), (None, false)] {
        match login_outcome(user, matches) {
            Err(HttpError::Simple(401, m)) => assert_eq!(m, "invalid_credentials"),
            _ => panic!("expected invalid_credentials"),
        }
    }
    assert_eq!(parts(HttpError::invalid_credentials()), (401, "invalid_credentials".to_string(), None));
}

fn register(email: &str, password: &str) -> users_auth::dto::auth::RegisterRequest {
    users_auth::dto::auth::RegisterRequest {
        email: email.to_string(),
        name: "Ada".to_string(),
        surname: "L".to_string(),
        password: password.to_string(),
    }
}

fn invalid_fields(r: Result<(), HttpError>) -> Vec<String> {
    match r {
        Ok(()) => Vec::new(),
        Err(HttpError::InvalidFieldsError(f)) => f,
        Err(_) => panic!("expected invalid fields"),
    }
}

#[test]
fn registration_fields_are_validated() {
    assert!(register("ada@example.com", "12345678").validate().is_ok());
    assert_eq!(invalid_fields(register("ada.example.com", "12345678").validate()), vec!["email"]);
    assert_eq!(invalid_fields(register("ada@example.com", "1234567").validate()), vec!["password"]);
    assert_eq!(invalid_fields(register("", "").validate()), vec!["email", "password"]);
    assert!(register("ada@example.com", "ééééééééé").validate().is_ok());
    assert_eq!(invalid_fields(register("ada@example.com", "éééé").validate()), vec!["password"]);
}

#[test]
fn login_email_is_validated() {
    let ok = users_auth::dto::auth::LoginRequest { email: "a@b.co".to_string(), password: String::new() };
    assert!(ok.validate().is_ok());
    let bad = users_auth::dto::auth::LoginRequest { email: "nobody".to_string(), password: String::new() };
    assert_eq!(invalid_fields(bad.validate()), vec!["email"]);
    let r = HttpError::InvalidFieldsError(vec!["email".to_string()]).into_response();
    assert_eq!((r.status, r.error.as_str()), (400, "invalid_fields"));
}

#[test]
fn missing_users_get_the_endpoint_error() {
    assert!(matches!(require_user(Some(someone()), UserLookup::Profile), Ok(u) if u.id == "id1"));
    let cases = [
        (UserLookup::Profile, 404, "user_not_found"),
        (UserLookup::DeviceToken, 400, "account_unavailable"),
        (UserLookup::Notifications, 401, "invalid_credentials"),
    ];
    for (lookup, status, code) in cases {
        match require_user(None, lookup) {
            Err(e) => assert_eq!(parts(e), (status, code.to_string(), None)),
            Ok(_) => panic!("a missing user is an error"),
        }
    }
}
