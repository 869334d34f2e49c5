use vstd::prelude::*;

use crate::credentials::{
    argon2_accepts, argon2_hash, generate_salt, hash_password, is_argon2id_phc, is_b64_of_16_bytes, new_user_id,
    parse_password_hash, password_fits, phc_parse_error, phc_parses, verify_password,
};
use crate::database::{Reply, Request, Step};
use crate::errors::{AppError, AppErrorType};
use crate::graphql_schema::{create_context, Context};
use crate::schemas::{LogInUser, SignUpUser, UserAuth};

verus! {

/// The body of a successful log in: `status` is always `success`.
#[derive(Debug, Clone)]
pub struct Outcome {
    pub status: String,
    pub message: String,
}

/// The answer to a successful sign up: `status` is always `success`, and the
/// created user's id, name and user name.
#[derive(Debug, Clone)]
pub struct NewUser {
    pub status: String,
    pub message: String,
    pub id: u128,
    pub name: String,
    pub username: String,
}

/// What reading the `SessionId` entry of the client's session gave.
#[derive(Debug, Clone, Copy)]
pub enum SessionLookup {
    /// The session could not be read.
    Unreadable,
    /// The session holds no user id.
    Missing,
    /// The session holds this user id.
    Found(u128),
}

/// Waiting for the new user's row to be written.
#[derive(Debug, Clone)]
pub struct Signup {
    pub user_id: u128,
    pub name: String,
    pub username: String,
}

/// Logging a user in.
pub enum Login {
    /// Waiting for the credentials stored under the user name.
    AwaitCredentials { username: String, password: String },
    /// The password was accepted for `user`; waiting for the log in time to
    /// be recorded.
    AwaitUpdate { user: UserAuth, accepted: Ghost<Seq<char>> },
    /// Waiting for the user's id to be stored in the session.
    AwaitSession { user: UserAuth, accepted: Ghost<Seq<char>> },
}

/// What a client's session gives when it holds the user id `session`, if any.
pub open spec fn lookup_of(session: Option<u128>) -> SessionLookup {
    match session {
        Some(id) => SessionLookup::Found(id),
        None => SessionLookup::Missing,
    }
}

/// What admitting a GraphQL request with the session lookup `session` gives:
/// an unreadable session is a session error, a session without a user id is
/// refused as unauthorized, and a user id becomes the resolvers' context.
pub open spec fn admits(session: SessionLookup, r: Result<Context, AppError>) -> bool {
    match session {
        SessionLookup::Unreadable => r matches Err(e) && e.error_type == AppErrorType::SessionError
            && e.message is Some && e.message->0@ == "Error get session id"@ && e.cause is None,
        SessionLookup::Missing => r matches Err(e) && e.error_type == AppErrorType::Authorization
            && e.message is None && e.cause is None,
        SessionLookup::Found(id) => r matches Ok(ctx) && ctx.user_id == id,
    }
}

/// What ending a session gives when a user id was (`removed`) or was not
/// removed from it.
pub open spec fn logs_out(removed: bool, r: Result<String, AppError>) -> bool {
    &&& removed ==> (r matches Ok(m) && m@ == "Log out successful"@)
    &&& !removed ==> (r matches Err(e) && e.error_type == AppErrorType::NotFoundError
        && e.message is Some && e.message->0@ == "Can not find session if to log out"@
        && e.cause is None)
}

fn success(message: String) -> (o: Outcome)
    ensures
        o.status@ == "success"@,
        o.message == message,
{
    Outcome { status: String::from_str("success"), message }
}

/// Admits a GraphQL request only for a client whose session names a user;
/// the resolvers then act for that user.
pub fn graphql(session: SessionLookup) -> (r: Result<Context, AppError>)
    ensures
        admits(session, r),
{
    match session {
        SessionLookup::Unreadable => Err(AppError::session_get_error()),
        SessionLookup::Missing => Err(AppError::new(None, None, AppErrorType::Authorization)),
        SessionLookup::Found(id) => Ok(create_context(id)),
    }
}

/// Ends a session: succeeds when the session held a user id that was
/// removed, and reports a missing session otherwise.
pub fn logout(removed: bool) -> (r: Result<String, AppError>)
    ensures
        logs_out(removed, r),
{
    if !removed {
        return Err(
            AppError::new(
                Some(String::from_str("Can not find session if to log out")),
                None,
                AppErrorType::NotFoundError,
            ),
        );
    }
    Ok(String::from_str("Log out successful"))
}

/// The row that signing `user` up writes: the user's names, with an
/// Argon2id PHC string that parses and that the user's password verifies
/// against, in place of the password.
pub open spec fn signup_writes(user: SignUpUser, req: Request) -> bool {
    &&& req is InsertUser
    &&& req->InsertUser_name == user.name
    &&& req->InsertUser_username == user.username
    &&& phc_parses(req->InsertUser_password_hash@)
    &&& argon2_accepts(user.password@, req->InsertUser_password_hash@)
    &&& is_argon2id_phc(req->InsertUser_password_hash@)
}

/// What signing up does once the new user's id is drawn and the password
/// hashed: a failed hash refuses the request as an invalid field, with the
/// hash error as cause; otherwise the user's row is written.
pub open spec fn signup_continues(
    user: SignUpUser,
    user_id: u128,
    hashed: Result<String, String>,
    step: Step<Signup, Result<NewUser, AppError>>,
) -> bool {
    match hashed {
        Err(e) => step matches Step::Finished(Err(err)) && err.error_type == AppErrorType::InvalidField
            && err.message is None && err.cause == Some(e),
        Ok(h) => step == Step::<Signup, Result<NewUser, AppError>>::Pending(
            Signup { user_id, name: user.name, username: user.username },
            Request::InsertUser { id: user_id, name: user.name, username: user.username, password_hash: h },
        ),
    }
}

/// Signs a user up once the id is drawn and the password hashed.
pub fn signup_with(user: SignUpUser, user_id: u128, hashed: Result<String, String>) -> (step: Step<Signup, Result<NewUser, AppError>>)
    ensures
        signup_continues(user, user_id, hashed, step),
{
    match hashed {
        Err(e) => Step::Finished(Err(AppError::new(None, Some(e), AppErrorType::InvalidField))),
        Ok(h) => {
            let state = Signup { user_id, name: user.name.clone(), username: user.username.clone() };
            let req = Request::InsertUser { id: user_id, name: user.name, username: user.username, password_hash: h };
            Step::Pending(state, req)
        },
    }
}

/// Begins signing `user` up: an invalid request is refused before anything
/// is written; otherwise a fresh version-4 id is drawn, the password is
/// hashed under a fresh sixteen-byte salt, and the new row is written. The
/// row's hash is one that the password verifies against. A valid request
/// whose password argon2 can hash always goes on to write the row.
pub fn signup(user: SignUpUser) -> (step: Step<Signup, Result<NewUser, AppError>>)
    ensures
        !user.is_valid() ==> (step matches Step::Finished(Err(e)) && e.error_type == AppErrorType::ValidationError
            && e.message is None && e.cause is None),
        user.is_valid() && password_fits(user.password@) ==> (step matches Step::Pending(
            Signup { user_id, .. },
            Request::InsertUser { id, .. },
        ) && id == user_id),
        user.is_valid() ==> (exists|user_id: u128, salt: Seq<char>, hashed: Result<String, String>|
            #![trigger signup_continues(user, user_id, hashed, step), argon2_hash(user.password@, salt)]
            signup_continues(user, user_id, hashed, step)
            && is_b64_of_16_bytes(salt)
            && user_id & 0xF000_C000_0000_0000_0000u128 == 0x4000_8000_0000_0000_0000u128
            && match hashed {
                Ok(h) => argon2_hash(user.password@, salt) == Ok::<Seq<char>, Seq<char>>(h@),
                Err(e) => argon2_hash(user.password@, salt) == Err::<Seq<char>, Seq<char>>(e@),
            }),
        step matches Step::Pending(_, req) ==> signup_writes(user, req),
{
    if !user.validate() {
        return Step::Finished(Err(AppError::validation_error()));
    }
    let user_id = new_user_id();
    let salt = generate_salt();
    let hashed = hash_password(user.password.as_str(), salt.as_str());
    signup_with(user, user_id, hashed)
}

impl Signup {
    /// What signing up does with the answer to the write: a failed write is a
    /// database error; a done one answers with the created user.
    pub open spec fn resumes_to(self, reply: Reply, step: Step<Signup, Result<NewUser, AppError>>) -> bool {
        match reply {
            Reply::Written => step matches Step::Finished(Ok(u)) && u.status@ == "success"@
                && u.message@ == "Now you can log in"@ && u.id == self.user_id && u.name == self.name
                && u.username == self.username,
            Reply::Failed(e) => step matches Step::Finished(Err(err)) && err.error_type == AppErrorType::DbError
                && err.message is None && err.cause == Some(e),
            _ => false,
        }
    }

    pub fn resume(self, reply: Reply) -> (step: Step<Signup, Result<NewUser, AppError>>)
        requires
            reply is Written || reply is Failed,
        ensures
            self.resumes_to(reply, step),
    {
        match reply {
            Reply::Written => Step::Finished(
                Ok(NewUser {
                    status: String::from_str("success"),
                    message: String::from_str("Now you can log in"),
                    id: self.user_id,
                    name: self.name,
                    username: self.username,
                }),
            ),
            Reply::Failed(e) => Step::Finished(Err(AppError::from_db_error(e))),
            _ => unreached(),
        }
    }
}

/// Begins logging `log_user` in: it first asks for the credentials stored
/// under the user name.
pub fn login(log_user: LogInUser) -> (step: (Login, Request))
    ensures
        step.0 == (Login::AwaitCredentials { username: log_user.username, password: log_user.password }),
        step.1 == step.0.expected(),
{
    let req = Request::FindCredentials { username: log_user.username.clone() };
    (Login::AwaitCredentials { username: log_user.username, password: log_user.password }, req)
}

impl Login {
    pub open spec fn expected(self) -> Request {
        match self {
            Login::AwaitCredentials { username, .. } => Request::FindCredentials { username },
            Login::AwaitUpdate { user, .. } => Request::UpdateLoggedAt { user_id: user.id },
            Login::AwaitSession { user, .. } => Request::OpenSession { user_id: user.id },
        }
    }

    /// A log in past the password check holds a user whose stored hash
    /// accepted the submitted password.
    pub open spec fn wf(self) -> bool {
        match self {
            Login::AwaitCredentials { .. } => true,
            Login::AwaitUpdate { user, accepted } => phc_parses(user.password_hash@)
                && argon2_accepts(accepted@, user.password_hash@),
            Login::AwaitSession { user, accepted } => phc_parses(user.password_hash@)
                && argon2_accepts(accepted@, user.password_hash@),
        }
    }

    /// How many more answers the log in needs at most.
    pub open spec fn remaining(self) -> nat {
        match self {
            Login::AwaitCredentials { .. } => 3,
            Login::AwaitUpdate { .. } => 2,
            Login::AwaitSession { .. } => 1,
        }
    }

    /// What logging in does with `reply`: an unknown user name or a wrong
    /// password is refused as invalid log in data; a stored hash that does
    /// not parse is a database error whose message is the parse error; a
    /// failed update is a database error; a session that cannot be written
    /// is a session error; otherwise the user is welcomed by user name.
    pub open spec fn resumes_to(self, reply: Reply, step: Step<Login, Result<Outcome, AppError>>) -> bool {
        match self {
            Login::AwaitCredentials { password, .. } => match reply {
                Reply::Credentials(user) => match phc_parse_error(user.password_hash@) {
                    Some(msg) => step matches Step::Finished(Err(e)) && e.error_type == AppErrorType::DbError
                        && e.message is Some && e.message->0@ == msg && e.cause is None,
                    None => if argon2_accepts(password@, user.password_hash@) {
                        step matches Step::Pending(Login::AwaitUpdate { user: u, accepted: p }, r)
                            && u == user && p@ == password@ && r == (Request::UpdateLoggedAt { user_id: user.id })
                    } else {
                        step matches Step::Finished(Err(e)) && e.error_type == AppErrorType::Authentification
                            && e.message is None && e.cause is None
                    },
                },
                _ => step matches Step::Finished(Err(e)) && e.error_type == AppErrorType::Authentification
                    && e.message is None && e.cause is None,
            },
            Login::AwaitUpdate { user, accepted } => match reply {
                Reply::Written => step == Step::<Login, Result<Outcome, AppError>>::Pending(
                    Login::AwaitSession { user, accepted },
                    Request::OpenSession { user_id: user.id },
                ),
                Reply::Failed(e) => step matches Step::Finished(Err(err)) && err.error_type == AppErrorType::DbError
                    && err.message is None && err.cause == Some(e),
                _ => false,
            },
            Login::AwaitSession { user, .. } => match reply {
                Reply::Written => step matches Step::Finished(Ok(o)) && o.status@ == "success"@
                    && o.message@ == "Welcome, "@ + user.username@,
                Reply::Failed(_) => step matches Step::Finished(Err(e)) && e.error_type == AppErrorType::SessionError
                    && e.message is Some && e.message->0@ == "Error insert session id"@ && e.cause is None,
                _ => false,
            },
        }
    }

    pub fn resume(self, reply: Reply) -> (step: Step<Login, Result<Outcome, AppError>>)
        requires
            self.wf(),
            reply.answers(self.expected()),
        ensures
            self.resumes_to(reply, step),
            step matches Step::Pending(s, r) ==> s.wf() && s.remaining() < self.remaining()
                && r == s.expected(),
            // a session is opened only for a user whose stored hash accepted
            // the submitted password
            step matches Step::Pending(s, Request::OpenSession { user_id }) ==> s matches Login::AwaitSession { user, accepted }
                && user.id == user_id && argon2_accepts(accepted@, user.password_hash@),
    {
        match self {
            Login::AwaitCredentials { password, .. } => match reply {
                Reply::Credentials(user) => {
                    match parse_password_hash(user.password_hash.as_str()) {
                        Err(msg) => Step::Finished(Err(AppError::new(Some(msg), None, AppErrorType::DbError))),
                        Ok(()) => {
                            if !verify_password(password.as_str(), user.password_hash.as_str()) {
                                Step::Finished(Err(AppError::new(None, None, AppErrorType::Authentification)))
                            } else {
                                let req = Request::UpdateLoggedAt { user_id: user.id };
                                Step::Pending(Login::AwaitUpdate { user, accepted: Ghost(password@) }, req)
                            }
                        },
                    }
                },
                _ => Step::Finished(Err(AppError::new(None, None, AppErrorType::Authentification))),
            },
            Login::AwaitUpdate { user, accepted } => match reply {
                Reply::Written => {
                    let req = Request::OpenSession { user_id: user.id };
                    Step::Pending(Login::AwaitSession { user, accepted }, req)
                },
                Reply::Failed(e) => Step::Finished(Err(AppError::from_db_error(e))),
                _ => unreached(),
            },
            Login::AwaitSession { user, .. } => match reply {
                Reply::Written => {
                    let mut message = String::from_str("Welcome, ");
                    message.append(user.username.as_str());
                    Step::Finished(Ok(success(message)))
                },
                Reply::Failed(_) => Step::Finished(Err(AppError::session_insert_error())),
                _ => unreached(),
            },
        }
    }
}

/// A wrong password never opens a session: when the stored hash does not
/// accept the submitted password, the log in ends refused as invalid log in
/// data.
pub proof fn wrong_password_is_refused(
    username: String,
    password: String,
    found: UserAuth,
    step: Step<Login, Result<Outcome, AppError>>,
)
    requires
        !argon2_accepts(password@, found.password_hash@),
        (Login::AwaitCredentials { username, password }).resumes_to(Reply::Credentials(found), step),
    ensures
        step matches Step::Finished(Err(e)) && (e.error_type == AppErrorType::Authentification
            || e.error_type == AppErrorType::DbError),
{
}

/// The HTTP status of the answer to an executed GraphQL request: 200 when
/// the execution succeeded, 400 otherwise.
pub fn graphql_status(executed_ok: bool) -> (code: u16)
    ensures
        code == (if executed_ok { 200u16 } else { 400u16 }),
{
    if executed_ok {
        200
    } else {
        400
    }
}

/// What `graphiql_source` (juniper) renders for the GraphQL endpoint
/// `endpoint` with no subscriptions endpoint.
pub uninterp spec fn graphiql_page(endpoint: Seq<char>) -> Seq<char>;

/// Calls `graphiql_source` of juniper with the endpoint and no subscriptions
/// endpoint. Trusted to give what `graphiql_page` names: the crate fills a
/// fixed page with the endpoint, so the page depends on it alone.
#[verifier::external_body]
fn graphiql_source(endpoint: &str) -> (html: String)
    ensures
        html@ == graphiql_page(endpoint@),
{
    juniper::http::graphiql::graphiql_source(endpoint, None)
}

/// The GraphiQL playground page, pointed at `/graphql`.
pub fn playground() -> (html: String)
    ensures
        html@ == graphiql_page("/graphql"@),
{
    graphiql_source("/graphql")
}

/// A logged-out client is refused: once log out has removed the user id from
/// the session, the session holds none, so a GraphQL request is refused as
/// unauthorized (status 403) and no resolver runs. Log out itself succeeds
/// exactly when the session held a user id.
pub proof fn logged_out_client_is_refused(
    before: Option<u128>,
    out: Result<String, AppError>,
    admitted: Result<Context, AppError>,
)
    requires
        logs_out(before is Some, out),
        admits(lookup_of(None), admitted),
    ensures
        out is Ok <==> before is Some,
        admitted matches Err(e) && e.error_type == AppErrorType::Authorization
            && crate::errors::status_of(e.error_type) == 403,
{
}

/// The plain password is not stored: the row that signing up writes holds
/// an Argon2id PHC string, which differs from the password unless the
/// password itself begins with `$argon2id$`.
pub proof fn signup_does_not_store_password(user: SignUpUser, written: Request)
    requires
        signup_writes(user, written),
    ensures
        !is_argon2id_phc(user.password@) ==> written->InsertUser_password_hash@ != user.password@,
{
}

} // verus!
