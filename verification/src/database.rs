use vstd::prelude::*;

use crate::errors::{default_message, AppError, AppErrorType, FieldError};
use crate::schemas::{User, UserAuth};

verus! {

/// A row of the `users` table, as `select *` returns it.
#[derive(Debug, Clone)]
pub struct UserRecord {
    pub id: u128,
    pub name: String,
    pub username: String,
    pub password_hash: String,
    pub logged_at: i128,
}

/// A piece of outside work that a request needs done before it can go on:
/// a query of the database or a change of the client's session.
#[derive(Debug, Clone)]
pub enum Request {
    /// `select id,name from users where name = $1`
    FindUserByName { name: String },
    /// `select friend from friends where user_id = $1`
    ListFriends { user_id: u128 },
    /// `select name from users`
    ListUserNames,
    /// `select * from users where id = $1`
    FindProfile { user_id: u128 },
    /// `select name from users where id = $1`
    FindUserName { user_id: u128 },
    /// `select * from friends where user_id = $1 and friend = $2`, asking whether a row exists
    FindFriendship { user_id: u128, friend: String },
    /// `insert into friends (user_id, friend) values ($1, $2)`
    InsertFriend { user_id: u128, friend: String },
    /// `delete from friends where user_id = $1 and friend = $2`
    DeleteFriend { user_id: u128, friend: String },
    /// `select id,username,password_hash,logged_at from users where username = $1`
    FindCredentials { username: String },
    /// `insert into users (id, name, username, password_hash) values ($1, $2, $3, $4)`
    InsertUser { id: u128, name: String, username: String, password_hash: String },
    /// `update users set logged_at = <now> where id = $1`
    UpdateLoggedAt { user_id: u128 },
    /// Store `user_id` in the client's session under `SessionId`.
    OpenSession { user_id: u128 },
}

/// The answer to a [`Request`].
#[derive(Debug, Clone)]
pub enum Reply {
    /// The work failed (or a single-row query found no row); the text of the error.
    Failed(String),
    /// The id and name of the row found.
    UserRow(u128, String),
    /// The values of a one-column listing.
    Names(Vec<String>),
    /// The full `users` row found.
    Profile(UserRecord),
    /// The single name found.
    Name(String),
    /// Whether a matching row exists.
    Exists(bool),
    /// The write was done.
    Written,
    /// The credentials row found.
    Credentials(UserAuth),
}

impl Reply {
    /// Whether this reply has the shape of an answer to `req`.
    pub open spec fn answers(self, req: Request) -> bool {
        match self {
            Reply::Failed(_) => true,
            Reply::UserRow(_, _) => req is FindUserByName,
            Reply::Names(_) => req is ListFriends || req is ListUserNames,
            Reply::Profile(_) => req is FindProfile,
            Reply::Name(_) => req is FindUserName,
            Reply::Exists(_) => req is FindFriendship,
            Reply::Written => {
                ||| req is InsertFriend
                ||| req is DeleteFriend
                ||| req is InsertUser
                ||| req is UpdateLoggedAt
                ||| req is OpenSession
            },
            Reply::Credentials(_) => req is FindCredentials,
        }
    }

    pub fn is_answer_to(&self, req: &Request) -> (b: bool)
        ensures
            b == self.answers(*req),
    {
        match self {
            Reply::Failed(_) => true,
            Reply::UserRow(_, _) => matches!(req, Request::FindUserByName { .. }),
            Reply::Names(_) => matches!(req, Request::ListFriends { .. } | Request::ListUserNames),
            Reply::Profile(_) => matches!(req, Request::FindProfile { .. }),
            Reply::Name(_) => matches!(req, Request::FindUserName { .. }),
            Reply::Exists(_) => matches!(req, Request::FindFriendship { .. }),
            Reply::Written => matches!(
                req,
                Request::InsertFriend { .. } | Request::DeleteFriend { .. } | Request::InsertUser { .. }
                    | Request::UpdateLoggedAt { .. } | Request::OpenSession { .. }
            ),
            Reply::Credentials(_) => matches!(req, Request::FindCredentials { .. }),
        }
    }
}

/// One step of a request: either it waits in state `S` for the answer to a
/// piece of outside work, or it is finished with outcome `T`.
pub enum Step<S, T> {
    Pending(S, Request),
    Finished(T),
}

/// Looking a user up by name, with the names of the user's friends.
#[derive(Debug, Clone)]
pub enum GetUser {
    /// Waiting for the user's row.
    AwaitUser { name: String },
    /// Waiting for the friends of the user found.
    AwaitFriends { id: u128, name: String },
}

/// The text of the error a lookup of a missing user ends in.
pub open spec fn not_found_text() -> Seq<char> {
    default_message(AppErrorType::NotFoundError)
}

/// Begins the lookup of the user called `name`: it first asks for the user's row.
pub fn db_get_user(name: String) -> (step: (GetUser, Request))
    ensures
        step.0 == (GetUser::AwaitUser { name }),
        step.1 == step.0.expected(),
{
    let req = Request::FindUserByName { name: name.clone() };
    (GetUser::AwaitUser { name }, req)
}

impl GetUser {
    /// The work this state waits for.
    pub open spec fn expected(self) -> Request {
        match self {
            GetUser::AwaitUser { name } => Request::FindUserByName { name },
            GetUser::AwaitFriends { id, .. } => Request::ListFriends { user_id: id },
        }
    }

    /// How many more answers the lookup needs at most.
    pub open spec fn remaining(self) -> nat {
        match self {
            GetUser::AwaitUser { .. } => 2,
            GetUser::AwaitFriends { .. } => 1,
        }
    }

    /// What the lookup does with `reply`: a missing user is reported as not
    /// found; a user whose friends cannot be listed is shown without friends.
    pub open spec fn resumes_to(self, reply: Reply, step: Step<GetUser, Result<User, FieldError>>) -> bool {
        match self {
            GetUser::AwaitUser { .. } => match reply {
                Reply::UserRow(id, name) => step == Step::<GetUser, Result<User, FieldError>>::Pending(
                    GetUser::AwaitFriends { id, name },
                    Request::ListFriends { user_id: id },
                ),
                _ => step matches Step::Finished(Err(e)) && e.message@ == not_found_text(),
            },
            GetUser::AwaitFriends { id, name } => match reply {
                Reply::Names(friends) => step == Step::<GetUser, Result<User, FieldError>>::Finished(
                    Ok(User { id, name, friends }),
                ),
                _ => step matches Step::Finished(Ok(u)) && u.id == id && u.name == name
                    && u.friends@ == Seq::<String>::empty(),
            },
        }
    }

    pub fn resume(self, reply: Reply) -> (step: Step<GetUser, Result<User, FieldError>>)
        requires
            reply.answers(self.expected()),
        ensures
            self.resumes_to(reply, step),
            step matches Step::Pending(s, r) ==> r == s.expected() && s.remaining() < self.remaining(),
    {
        match self {
            GetUser::AwaitUser { .. } => match reply {
                Reply::UserRow(id, name) => Step::Pending(
                    GetUser::AwaitFriends { id, name },
                    Request::ListFriends { user_id: id },
                ),
                _ => Step::Finished(
                    Err(AppError::new(None, None, AppErrorType::NotFoundError).into_field_error()),
                ),
            },
            GetUser::AwaitFriends { id, name } => match reply {
                Reply::Names(friends) => Step::Finished(Ok(User { id, name, friends })),
                _ => Step::Finished(Ok(User { id, name, friends: Vec::new() })),
            },
        }
    }
}

} // verus!
