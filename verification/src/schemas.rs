use vstd::prelude::*;

use crate::credentials::has_min_length;

verus! {

/// A user as the GraphQL API shows it to everybody.
#[derive(Debug, Clone)]
pub struct User {
    pub id: u128,
    pub name: String,
    pub friends: Vec<String>,
}

/// Everything the server knows about the logged-in user.
/// `logged_at` is the time of the last log in, in nanoseconds since the
/// Unix epoch (UTC).
#[derive(Debug, Clone)]
pub struct FullUser {
    pub id: u128,
    pub name: String,
    pub username: String,
    pub password_hash: String,
    pub logged_at: i128,
    pub friends: Vec<String>,
}

/// The credentials row of a user, looked up by user name at log in.
/// `logged_at` is in nanoseconds since the Unix epoch (UTC).
#[derive(Debug, Clone)]
pub struct UserAuth {
    pub id: u128,
    pub username: String,
    pub password_hash: String,
    pub logged_at: i128,
}

/// The body of a log in request.
#[derive(Debug, Clone)]
pub struct LogInUser {
    pub username: String,
    pub password: String,
}

/// The body of a sign up request.
#[derive(Debug, Clone)]
pub struct SignUpUser {
    pub name: String,
    pub username: String,
    pub password: String,
}

/// Shortest accepted display name, in characters.
pub const NAME_MIN_LEN: u64 = 4;
/// Shortest accepted user name, in characters.
pub const USERNAME_MIN_LEN: u64 = 4;
/// Shortest accepted password, in characters.
pub const PASSWORD_MIN_LEN: u64 = 8;

impl SignUpUser {
    /// A sign up request is valid when the display name and the user name
    /// have at least four characters and the password at least eight.
    pub open spec fn is_valid(self) -> bool {
        &&& self.name@.len() >= NAME_MIN_LEN
        &&& self.username@.len() >= USERNAME_MIN_LEN
        &&& self.password@.len() >= PASSWORD_MIN_LEN
    }

    pub fn validate(&self) -> (ok: bool)
        ensures
            ok == self.is_valid(),
    {
        let name_ok = has_min_length(&self.name, NAME_MIN_LEN);
        let username_ok = has_min_length(&self.username, USERNAME_MIN_LEN);
        let password_ok = has_min_length(&self.password, PASSWORD_MIN_LEN);
        name_ok && username_ok && password_ok
    }
}

} // verus!
