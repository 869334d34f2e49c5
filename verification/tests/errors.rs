use graphql_server::errors::{AppError, AppErrorType, FieldError};

fn s(x: &str) -> String {
    x.to_string()
}

#[test]
fn new_keeps_its_fields() {
    let e = AppError::new(Some(s("m")), Some(s("c")), AppErrorType::InvalidField);
    assert_eq!(e.message, Some(s("m")));
    assert_eq!(e.cause, Some(s("c")));
    assert_eq!(e.error_type, AppErrorType::InvalidField);
}

#[test]
fn explicit_message_wins_over_default() {
    let e = AppError::new(Some(s("custom text")), None, AppErrorType::NotFoundError);
    assert_eq!(e.message(), "custom text");
    let e = AppError::new(Some(s("")), None, AppErrorType::DbError);
    assert_eq!(e.message(), "");
}

#[test]
fn default_messages_per_kind() {
    let cases = [
        (AppErrorType::DbError, "An unexpected error has occurred"),
        (AppErrorType::NotFoundError, "The requested item was not found"),
        (AppErrorType::InvalidField, "Invalid field value provided"),
        (AppErrorType::Authentification, "Invalid log in data"),
        (AppErrorType::Authorization, "Authorization failed. Plese authorizate first!"),
        (AppErrorType::SessionError, "An unexpected error has occurred"),
        (AppErrorType::ValidationError, "Invalid data validation. Use correct data!"),
    ];
    for (t, text) in cases {
        assert_eq!(AppError::new(None, Some(s("ignored cause")), t).message(), text);
    }
}

#[test]
fn status_codes_per_kind() {
    let cases = [
        (AppErrorType::DbError, 500),
        (AppErrorType::NotFoundError, 404),
        (AppErrorType::InvalidField, 400),
        (AppErrorType::Authentification, 401),
        (AppErrorType::Authorization, 403),
        (AppErrorType::SessionError, 500),
        (AppErrorType::ValidationError, 400),
    ];
    for (t, code) in cases {
        let c = AppError::new(None, None, t).status_code();
        assert_eq!(c, code);
        assert!((400..600).contains(&c));
    }
}

#[test]
fn database_error_keeps_cause_and_hides_it() {
    let e = AppError::from_db_error(s("connection refused"));
    assert_eq!(e.message, None);
    assert_eq!(e.cause, Some(s("connection refused")));
    assert_eq!(e.error_type, AppErrorType::DbError);
    assert_eq!(e.message(), "An unexpected error has occurred");
    assert_eq!(e.status_code(), 500);
}

#[test]
fn session_errors() {
    let g = AppError::session_get_error();
    assert_eq!(g.message(), "Error get session id");
    assert_eq!(g.error_type, AppErrorType::SessionError);
    assert_eq!(g.cause, None);
    let i = AppError::session_insert_error();
    assert_eq!(i.message(), "Error insert session id");
    assert_eq!(i.error_type, AppErrorType::SessionError);
    assert_eq!(i.status_code(), 500);
}

#[test]
fn validation_error_text_and_status() {
    let v = AppError::validation_error();
    assert_eq!(v.message, None);
    assert_eq!(v.message(), "Invalid data validation. Use correct data!");
    assert_eq!(v.status_code(), 400);
}

#[test]
fn field_error_carries_the_client_text() {
    let f: FieldError = AppError::new(None, Some(s("x")), AppErrorType::NotFoundError).into_field_error();
    assert_eq!(f.message, "The requested item was not found");
    let f = AppError::new(Some(s("own")), None, AppErrorType::InvalidField).into_field_error();
    assert_eq!(f.message, "own");
    assert_eq!(FieldError::new(s("raw")).message, "raw");
}
