use graphql_server::database::{Reply, Request, Step};
use graphql_server::errors::AppErrorType;
use graphql_server::handlers::{
    graphql, graphql_status, login, logout, playground, signup, signup_with, Login, SessionLookup, Signup,
};
use graphql_server::schemas::{LogInUser, SignUpUser, UserAuth};

fn s(x: &str) -> String {
    x.to_string()
}

fn signup_user(name: &str, username: &str, password: &str) -> SignUpUser {
    SignUpUser { name: s(name), username: s(username), password: s(password) }
}

/// Signs a valid user up and hands back the row it writes.
fn written_row(user: SignUpUser) -> (u128, String, String, String) {
    match signup(user) {
        Step::Pending(Signup { user_id, name: n, username: u }, Request::InsertUser { id, name, username, password_hash }) => {
            assert_eq!(user_id, id);
            assert_eq!(n, name);
            assert_eq!(u, username);
            (id, name, username, password_hash)
        }
        _ => panic!("a valid sign up writes the new user"),
    }
}

fn login_with(username: &str, password: &str, found: UserAuth) -> Step<Login, Result<graphql_server::handlers::Outcome, graphql_server::errors::AppError>> {
    let (state, req) = login(LogInUser { username: s(username), password: s(password) });
    match &req {
        Request::FindCredentials { username: u } => assert_eq!(u, username),
        _ => panic!("log in starts with the credentials lookup"),
    }
    state.resume(Reply::Credentials(found))
}

#[test]
fn validate_bounds() {
    assert!(signup_user("abcd", "efgh", "12345678").validate());
    assert!(!signup_user("abc", "efgh", "12345678").validate());
    assert!(!signup_user("abcd", "efg", "12345678").validate());
    assert!(!signup_user("abcd", "efgh", "1234567").validate());
    // lengths count characters, not bytes
    assert!(signup_user("ßßßß", "éééé", "ééééééé€").validate());
    assert!(!signup_user("ßßß", "efgh", "12345678").validate());
}

#[test]
fn invalid_signup_is_refused_before_any_write() {
    match signup(signup_user("ab", "alice", "password1")) {
        Step::Finished(Err(e)) => {
            assert_eq!(e.error_type, AppErrorType::ValidationError);
            assert_eq!(e.message(), "Invalid data validation. Use correct data!");
        }
        _ => panic!("invalid input must be refused"),
    }
}

#[test]
fn signup_then_login_succeeds() {
    let (id, name, username, hash) = written_row(signup_user("Alice", "alice", "correct horse"));
    assert_eq!(name, "Alice");
    assert_eq!(username, "alice");
    assert!(hash.starts_with("$argon2id$"));
    assert_ne!(hash, "correct horse");
    // a version-4 id
    assert_eq!((id >> 76) & 0xF, 4);
    assert_eq!((id >> 62) & 0x3, 2);

    let row = UserAuth { id, username: s("alice"), password_hash: hash, logged_at: 0 };
    let step = login_with("alice", "correct horse", row);
    let state = match step {
        Step::Pending(state, Request::UpdateLoggedAt { user_id }) => {
            assert_eq!(user_id, id);
            state
        }
        _ => panic!("the right password is accepted"),
    };
    let state = match state.resume(Reply::Written) {
        Step::Pending(state, Request::OpenSession { user_id }) => {
            assert_eq!(user_id, id);
            state
        }
        _ => panic!("the session is opened next"),
    };
    match state.resume(Reply::Written) {
        Step::Finished(Ok(o)) => {
            assert_eq!(o.status, "success");
            assert_eq!(o.message, "Welcome, alice");
        }
        _ => panic!("the log in succeeds"),
    }
}

#[test]
fn wrong_password_is_refused() {
    let (id, _, _, hash) = written_row(signup_user("Bobby", "bobby", "secret-pass"));
    let row = UserAuth { id, username: s("bobby"), password_hash: hash, logged_at: 0 };
    match login_with("bobby", "secret-pasS", row) {
        Step::Finished(Err(e)) => {
            assert_eq!(e.error_type, AppErrorType::Authentification);
            assert_eq!(e.message(), "Invalid log in data");
            assert_eq!(e.status_code(), 401);
        }
        _ => panic!("a wrong password must be refused"),
    }
}

#[test]
fn unknown_user_is_refused() {
    let (state, _) = login(LogInUser { username: s("nobody"), password: s("whatever") });
    match state.resume(Reply::Failed(s("no rows returned"))) {
        Step::Finished(Err(e)) => {
            assert_eq!(e.error_type, AppErrorType::Authentification);
            assert_eq!(e.cause, None);
        }
        _ => panic!("an unknown user must be refused"),
    }
}

#[test]
fn malformed_stored_hash_is_a_database_error() {
    let row = UserAuth { id: 7, username: s("carol"), password_hash: s("not a phc string"), logged_at: 0 };
    match login_with("carol", "whatever1", row) {
        Step::Finished(Err(e)) => {
            assert_eq!(e.error_type, AppErrorType::DbError);
            let m = e.message.clone().expect("the parse error is the message");
            assert!(!m.is_empty());
            assert_eq!(e.message(), m);
        }
        _ => panic!("a malformed hash must fail"),
    }
}

#[test]
fn failed_login_time_update_is_a_database_error() {
    let (id, _, _, hash) = written_row(signup_user("Dave", "daveuser", "pass word!"));
    let row = UserAuth { id, username: s("daveuser"), password_hash: hash, logged_at: 5 };
    let state = match login_with("daveuser", "pass word!", row) {
        Step::Pending(state, _) => state,
        _ => panic!("accepted"),
    };
    match state.resume(Reply::Failed(s("deadlock"))) {
        Step::Finished(Err(e)) => {
            assert_eq!(e.error_type, AppErrorType::DbError);
            assert_eq!(e.cause, Some(s("deadlock")));
            assert_eq!(e.message, None);
        }
        _ => panic!("a failed update must fail"),
    }
}

#[test]
fn failed_session_write_is_a_session_error() {
    let (id, _, _, hash) = written_row(signup_user("Erin", "erinuser", "pass word?"));
    let row = UserAuth { id, username: s("erinuser"), password_hash: hash, logged_at: 5 };
    let state = match login_with("erinuser", "pass word?", row) {
        Step::Pending(state, _) => state,
        _ => panic!("accepted"),
    };
    let state = match state.resume(Reply::Written) {
        Step::Pending(state, _) => state,
        _ => panic!("session next"),
    };
    match state.resume(Reply::Failed(s("cookie too large"))) {
        Step::Finished(Err(e)) => {
            assert_eq!(e.error_type, AppErrorType::SessionError);
            assert_eq!(e.message(), "Error insert session id");
        }
        _ => panic!("a failed session write must fail"),
    }
}

#[test]
fn signup_with_failed_hash_is_an_invalid_field() {
    match signup_with(signup_user("Frank", "frank", "password"), 9, Err(s("salt too short"))) {
        Step::Finished(Err(e)) => {
            assert_eq!(e.error_type, AppErrorType::InvalidField);
            assert_eq!(e.cause, Some(s("salt too short")));
            assert_eq!(e.message(), "Invalid field value provided");
        }
        _ => panic!("a failed hash must fail"),
    }
}

#[test]
fn signup_with_writes_the_given_hash() {
    match signup_with(signup_user("Grace", "grace", "password"), 42, Ok(s("$argon2id$stub"))) {
        Step::Pending(Signup { user_id, .. }, Request::InsertUser { id, name, username, password_hash }) => {
            assert_eq!(user_id, 42);
            assert_eq!(id, 42);
            assert_eq!(name, "Grace");
            assert_eq!(username, "grace");
            assert_eq!(password_hash, "$argon2id$stub");
        }
        _ => panic!("the row is written"),
    }
}

fn pending_signup() -> Signup {
    Signup { user_id: 11, name: s("Heidi"), username: s("heidi") }
}

#[test]
fn signup_answers_with_the_created_user() {
    match pending_signup().resume(Reply::Written) {
        Step::Finished(Ok(created)) => {
            assert_eq!(created.status, "success");
            assert_eq!(created.message, "Now you can log in");
            assert_eq!(created.id, 11);
            assert_eq!(created.name, "Heidi");
            assert_eq!(created.username, "heidi");
        }
        _ => panic!("sign up succeeds"),
    }
    match pending_signup().resume(Reply::Failed(s("duplicate key"))) {
        Step::Finished(Err(e)) => {
            assert_eq!(e.error_type, AppErrorType::DbError);
            assert_eq!(e.cause, Some(s("duplicate key")));
        }
        _ => panic!("a failed insert fails"),
    }
}

#[test]
fn graphql_needs_a_session() {
    match graphql(SessionLookup::Found(77)) {
        Ok(ctx) => assert_eq!(ctx.user_id, 77),
        Err(_) => panic!("a session admits the request"),
    }
    match graphql(SessionLookup::Missing) {
        Err(e) => {
            assert_eq!(e.error_type, AppErrorType::Authorization);
            assert_eq!(e.status_code(), 403);
            assert_eq!(e.message(), "Authorization failed. Plese authorizate first!");
        }
        Ok(_) => panic!("no session, no request"),
    }
    match graphql(SessionLookup::Unreadable) {
        Err(e) => assert_eq!(e.message(), "Error get session id"),
        Ok(_) => panic!("unreadable session"),
    }
}

#[test]
fn logout_outcomes() {
    assert_eq!(logout(true).ok(), Some(s("Log out successful")));
    match logout(false) {
        Err(e) => {
            assert_eq!(e.error_type, AppErrorType::NotFoundError);
            assert_eq!(e.message(), "Can not find session if to log out");
            assert_eq!(e.status_code(), 404);
        }
        Ok(_) => panic!("nothing to log out"),
    }
}

#[test]
fn full_signup_run_answers_the_created_user() {
    let (state, req) = match signup(signup_user("Ivan", "ivanuser", "long password")) {
        Step::Pending(state, req) => (state, req),
        _ => panic!("a valid sign up always writes the row"),
    };
    let id = match req {
        Request::InsertUser { id, .. } => id,
        _ => panic!(),
    };
    match state.resume(Reply::Written) {
        Step::Finished(Ok(created)) => {
            assert_eq!(created.id, id);
            assert_eq!(created.name, "Ivan");
            assert_eq!(created.username, "ivanuser");
        }
        _ => panic!("sign up succeeds"),
    }
}

#[test]
fn graphql_status_follows_execution() {
    assert_eq!(graphql_status(true), 200);
    assert_eq!(graphql_status(false), 400);
}

#[test]
fn playground_points_at_graphql() {
    let html = playground();
    assert!(html.contains("/graphql"));
    assert!(html.len() > "/graphql".len());
    assert!(html.contains("JUNIPER_URL"));
}

#[test]
fn logged_out_client_is_refused() {
    assert!(logout(true).is_ok());
    match graphql(SessionLookup::Missing) {
        Err(e) => assert_eq!(e.status_code(), 403),
        Ok(_) => panic!("no user id after log out"),
    }
}
