use vstd::prelude::*;

use crate::database::{db_get_user, not_found_text, GetUser, Reply, Request, Step, UserRecord};
use crate::errors::{default_message, AppError, AppErrorType, FieldError};
use crate::schemas::{FullUser, User};

verus! {

/// What every resolver knows of the request it serves: the id of the
/// logged-in user.
#[derive(Debug, Clone, Copy)]
pub struct Context {
    pub user_id: u128,
}

pub fn create_context(user_id: u128) -> (ctx: Context)
    ensures
        ctx.user_id == user_id,
{
    Context { user_id }
}

/// The root of the GraphQL queries.
#[derive(Debug, Clone, Copy)]
pub struct Query;

/// The root of the GraphQL mutations.
#[derive(Debug, Clone, Copy)]
pub struct Mutation;

/// Listing every user, each with the names of the user's friends.
#[derive(Debug, Clone)]
pub enum Users {
    /// Waiting for the names of all users.
    AwaitNames,
    /// `users` holds the users of `names[..next]`; `current` looks up `names[next]`.
    Collect { names: Vec<String>, next: usize, users: Vec<User>, current: GetUser },
}

/// Reading the logged-in user's own full record.
#[derive(Debug, Clone)]
pub enum AboutMe {
    AwaitProfile { user_id: u128 },
    AwaitFriends { record: UserRecord },
}

/// Adding the user called `name` to the logged-in user's friends.
#[derive(Debug, Clone)]
pub enum AddFriend {
    /// Looking up the friend to be.
    LookUpFriend { user_id: u128, name: String, lookup: GetUser },
    /// Asking whether the friendship is already recorded; `friend_id` is the
    /// id of the user found.
    AwaitFriendship { user_id: u128, name: String, friend_id: u128 },
    /// Waiting for the friendship to be written.
    AwaitInsert { user_id: u128, name: String, friend_id: u128 },
    /// Asking for the logged-in user's name.
    AwaitOwnName { user_id: u128 },
    /// Looking up the logged-in user, to show the friends it now has.
    LookUpSelf { lookup: GetUser },
}

/// Removing the user called `name` from the logged-in user's friends.
#[derive(Debug, Clone)]
pub enum DeleteFriend {
    LookUpFriend { user_id: u128, name: String, lookup: GetUser },
    AwaitFriendship { user_id: u128, name: String },
    AwaitDelete { user_id: u128, name: String },
    AwaitOwnName { user_id: u128 },
    LookUpSelf { lookup: GetUser },
}

/// The message of the error that refuses a friendship that already exists.
pub open spec fn already_friends_text() -> Seq<char> {
    "The user already has this friend!"@
}

/// The message of the error that refuses an invalid field value.
pub open spec fn invalid_field_text() -> Seq<char> {
    default_message(AppErrorType::InvalidField)
}

fn invalid_field() -> (f: FieldError)
    ensures
        f.message@ == invalid_field_text(),
{
    AppError::new(None, None, AppErrorType::InvalidField).into_field_error()
}

fn already_friends() -> (f: FieldError)
    ensures
        f.message@ == already_friends_text(),
{
    AppError::new(
        Some(String::from_str("The user already has this friend!")),
        None,
        AppErrorType::InvalidField,
    ).into_field_error()
}

impl Query {
    /// The version of the API.
    pub fn version() -> (v: &'static str)
        ensures
            v@ == "0.1"@,
    {
        "0.1"
    }

    /// Begins listing every user: it first asks for the names of all users.
    pub fn users() -> (step: (Users, Request))
        ensures
            step.0 == Users::AwaitNames,
            step.1 == step.0.expected(),
            step.0.wf(),
    {
        (Users::AwaitNames, Request::ListUserNames)
    }

    /// Begins looking up the user called `name`.
    pub fn user(name: String) -> (step: (GetUser, Request))
        ensures
            step.0 == (GetUser::AwaitUser { name }),
            step.1 == step.0.expected(),
    {
        db_get_user(name)
    }

    /// Begins reading the logged-in user's full record.
    pub fn about_me(context: &Context) -> (step: (AboutMe, Request))
        ensures
            step.0 == (AboutMe::AwaitProfile { user_id: context.user_id }),
            step.1 == step.0.expected(),
    {
        (AboutMe::AwaitProfile { user_id: context.user_id }, Request::FindProfile { user_id: context.user_id })
    }
}

impl Mutation {
    /// Begins adding the user called `name` to the logged-in user's friends:
    /// it first looks that user up.
    pub fn add_friend(name: String, context: &Context) -> (step: (AddFriend, Request))
        ensures
            step.0 == (AddFriend::LookUpFriend {
                user_id: context.user_id,
                name,
                lookup: GetUser::AwaitUser { name },
            }),
            step.1 == step.0.expected(),
            step.0.wf(),
            step.0.remaining() == 7,
    {
        let (lookup, req) = db_get_user(name.clone());
        (AddFriend::LookUpFriend { user_id: context.user_id, name, lookup }, req)
    }

    /// Begins removing the user called `name` from the logged-in user's
    /// friends: it first looks that user up.
    pub fn delete_friend(name: String, context: &Context) -> (step: (DeleteFriend, Request))
        ensures
            step.0 == (DeleteFriend::LookUpFriend {
                user_id: context.user_id,
                name,
                lookup: GetUser::AwaitUser { name },
            }),
            step.1 == step.0.expected(),
            step.0.remaining() == 7,
    {
        let (lookup, req) = db_get_user(name.clone());
        (DeleteFriend::LookUpFriend { user_id: context.user_id, name, lookup }, req)
    }
}

impl Users {
    pub open spec fn expected(self) -> Request {
        match self {
            Users::AwaitNames => Request::ListUserNames,
            Users::Collect { current, .. } => current.expected(),
        }
    }

    /// The listing is consistent: it looks up a name that exists, and has
    /// one user for each name before it.
    pub open spec fn wf(self) -> bool {
        match self {
            Users::AwaitNames => true,
            Users::Collect { names, next, users, .. } => next < names.len() && users.len() == next,
        }
    }

    /// Once the names are known, how many more answers the listing needs at most.
    pub open spec fn remaining(self) -> nat {
        match self {
            Users::AwaitNames => 0,
            Users::Collect { names, next, current, .. } => (2 * (names.len() - next - 1) + current.remaining()) as nat,
        }
    }

    /// What the listing does with `reply`: a failed listing fails with the
    /// error's text; each name is looked up in turn, and the first lookup
    /// that fails ends the listing with its error.
    pub open spec fn resumes_to(self, reply: Reply, step: Step<Users, Result<Vec<User>, FieldError>>) -> bool {
        match self {
            Users::AwaitNames => match reply {
                Reply::Names(ns) => if ns.len() == 0 {
                    step matches Step::Finished(Ok(v)) && v@ == Seq::<User>::empty()
                } else {
                    step matches Step::Pending(Users::Collect { names, next, users, current }, r)
                        && names == ns && next == 0 && users@ == Seq::<User>::empty()
                        && current == (GetUser::AwaitUser { name: ns@[0] }) && r == current.expected()
                },
                Reply::Failed(e) => step matches Step::Finished(Err(f)) && f.message == e,
                _ => false,
            },
            Users::Collect { names, next, users, current } => match step {
                Step::Pending(Users::Collect { names: names2, next: next2, users: users2, current: current2 }, r) => {
                    &&& names2 == names
                    &&& r == current2.expected()
                    &&& {
                        ||| next2 == next && users2 == users
                            && current.resumes_to(reply, Step::Pending(current2, r))
                        ||| next2 == next + 1 && next2 < names.len() && users2@.len() == next2
                            && users2@.drop_last() == users@
                            && current.resumes_to(reply, Step::Finished(Ok(users2@.last())))
                            && current2 == (GetUser::AwaitUser { name: names@[next2 as int] })
                    }
                },
                Step::Pending(Users::AwaitNames, _) => false,
                Step::Finished(Err(e)) => current.resumes_to(reply, Step::Finished(Err(e))),
                Step::Finished(Ok(v)) => {
                    &&& next + 1 == names.len()
                    &&& v@.len() == next + 1
                    &&& v@.drop_last() == users@
                    &&& current.resumes_to(reply, Step::Finished(Ok(v@.last())))
                },
            },
        }
    }

    pub fn resume(self, reply: Reply) -> (step: Step<Users, Result<Vec<User>, FieldError>>)
        requires
            self.wf(),
            reply.answers(self.expected()),
        ensures
            self.resumes_to(reply, step),
            step matches Step::Pending(s, r) ==> r == s.expected() && s.wf() && s is Collect,
            self is Collect ==> (step matches Step::Pending(s, _) ==> s.remaining() < self.remaining()),
    {
        match self {
            Users::AwaitNames => match reply {
                Reply::Names(names) => {
                    if names.len() == 0 {
                        Step::Finished(Ok(Vec::new()))
                    } else {
                        let (current, req) = db_get_user(names[0].clone());
                        Step::Pending(Users::Collect { names, next: 0, users: Vec::new(), current }, req)
                    }
                },
                Reply::Failed(e) => Step::Finished(Err(FieldError::new(e))),
                _ => unreached(),
            },
            Users::Collect { names, next, users, current } => {
                let mut users = users;
                match current.resume(reply) {
                    Step::Pending(current2, req) => Step::Pending(
                        Users::Collect { names, next, users, current: current2 },
                        req,
                    ),
                    Step::Finished(Err(e)) => Step::Finished(Err(e)),
                    Step::Finished(Ok(u)) => {
                        let ghost old_users = users@;
                        users.push(u);
                        assert(users@.drop_last() == old_users);
                        let next2 = next + 1;
                        if next2 == names.len() {
                            Step::Finished(Ok(users))
                        } else {
                            let (current2, req) = db_get_user(names[next2].clone());
                            Step::Pending(Users::Collect { names, next: next2, users, current: current2 }, req)
                        }
                    },
                }
            },
        }
    }
}

impl AboutMe {
    pub open spec fn expected(self) -> Request {
        match self {
            AboutMe::AwaitProfile { user_id } => Request::FindProfile { user_id },
            AboutMe::AwaitFriends { record } => Request::ListFriends { user_id: record.id },
        }
    }

    /// What reading the own record does with `reply`: a failed read fails
    /// with the error's text; a record whose friends cannot be listed is
    /// shown without friends.
    pub open spec fn resumes_to(self, reply: Reply, step: Step<AboutMe, Result<FullUser, FieldError>>) -> bool {
        match self {
            AboutMe::AwaitProfile { .. } => match reply {
                Reply::Profile(record) => step == Step::<AboutMe, Result<FullUser, FieldError>>::Pending(
                    AboutMe::AwaitFriends { record },
                    Request::ListFriends { user_id: record.id },
                ),
                Reply::Failed(e) => step matches Step::Finished(Err(f)) && f.message == e,
                _ => false,
            },
            AboutMe::AwaitFriends { record } => match reply {
                Reply::Names(friends) => step == Step::<AboutMe, Result<FullUser, FieldError>>::Finished(
                    Ok(FullUser {
                        id: record.id,
                        name: record.name,
                        username: record.username,
                        password_hash: record.password_hash,
                        logged_at: record.logged_at,
                        friends,
                    }),
                ),
                _ => step matches Step::Finished(Ok(u)) && u.id == record.id && u.name == record.name
                    && u.username == record.username && u.password_hash == record.password_hash
                    && u.logged_at == record.logged_at && u.friends@ == Seq::<String>::empty(),
            },
        }
    }

    pub fn resume(self, reply: Reply) -> (step: Step<AboutMe, Result<FullUser, FieldError>>)
        requires
            reply.answers(self.expected()),
        ensures
            self.resumes_to(reply, step),
            step matches Step::Pending(s, r) ==> r == s.expected() && s is AwaitFriends,
    {
        match self {
            AboutMe::AwaitProfile { .. } => match reply {
                Reply::Profile(record) => {
                    let req = Request::ListFriends { user_id: record.id };
                    Step::Pending(AboutMe::AwaitFriends { record }, req)
                },
                Reply::Failed(e) => Step::Finished(Err(FieldError::new(e))),
                _ => unreached(),
            },
            AboutMe::AwaitFriends { record } => {
                let friends = match reply {
                    Reply::Names(friends) => friends,
                    _ => Vec::new(),
                };
                Step::Finished(
                    Ok(FullUser {
                        id: record.id,
                        name: record.name,
                        username: record.username,
                        password_hash: record.password_hash,
                        logged_at: record.logged_at,
                        friends,
                    }),
                )
            },
        }
    }
}

impl AddFriend {
    pub open spec fn expected(self) -> Request {
        match self {
            AddFriend::LookUpFriend { lookup, .. } => lookup.expected(),
            AddFriend::AwaitFriendship { user_id, name, .. } => Request::FindFriendship { user_id, friend: name },
            AddFriend::AwaitInsert { user_id, name, .. } => Request::InsertFriend { user_id, friend: name },
            AddFriend::AwaitOwnName { user_id } => Request::FindUserName { user_id },
            AddFriend::LookUpSelf { lookup } => lookup.expected(),
        }
    }

    /// Once the friend is known, it is somebody else than the logged-in user.
    pub open spec fn wf(self) -> bool {
        match self {
            AddFriend::AwaitFriendship { user_id, friend_id, .. } => friend_id != user_id,
            AddFriend::AwaitInsert { user_id, friend_id, .. } => friend_id != user_id,
            _ => true,
        }
    }

    /// Whether the friendship has been written.
    pub open spec fn written(self) -> bool {
        self is AwaitOwnName || self is LookUpSelf
    }

    /// How many more answers adding the friend needs at most.
    pub open spec fn remaining(self) -> nat {
        match self {
            AddFriend::LookUpFriend { lookup, .. } => 5 + lookup.remaining(),
            AddFriend::AwaitFriendship { .. } => 5,
            AddFriend::AwaitInsert { .. } => 4,
            AddFriend::AwaitOwnName { .. } => 3,
            AddFriend::LookUpSelf { lookup } => lookup.remaining(),
        }
    }

    /// What adding a friend does with `reply`: a friend that is missing, is
    /// the logged-in user, or is a friend already is refused; otherwise the
    /// friendship is written and the logged-in user is shown as it is then.
    /// A failed query ends the request with the query's error text.
    pub open spec fn resumes_to(self, reply: Reply, step: Step<AddFriend, Result<User, FieldError>>) -> bool {
        match self {
            AddFriend::LookUpFriend { user_id, name, lookup } => match step {
                Step::Pending(AddFriend::LookUpFriend { user_id: user_id2, name: name2, lookup: lookup2 }, r) => {
                    user_id2 == user_id && name2 == name && lookup.resumes_to(reply, Step::Pending(lookup2, r))
                },
                Step::Pending(AddFriend::AwaitFriendship { user_id: user_id2, name: name2, friend_id }, r) => {
                    &&& user_id2 == user_id
                    &&& name2 == name
                    &&& r == (Request::FindFriendship { user_id, friend: name })
                    &&& lookup matches GetUser::AwaitFriends { id, .. } && id == friend_id
                    &&& friend_id != user_id
                },
                Step::Pending(_, _) => false,
                Step::Finished(Err(e)) => {
                    ||| lookup.resumes_to(reply, Step::Finished(Err(e)))
                    ||| lookup matches GetUser::AwaitFriends { id, .. } && id == user_id
                        && e.message@ == invalid_field_text()
                },
                Step::Finished(Ok(_)) => false,
            },
            AddFriend::AwaitFriendship { user_id, name, friend_id } => match reply {
                Reply::Exists(true) => step matches Step::Finished(Err(e)) && e.message@ == already_friends_text(),
                Reply::Exists(false) => step == Step::<AddFriend, Result<User, FieldError>>::Pending(
                    AddFriend::AwaitInsert { user_id, name, friend_id },
                    Request::InsertFriend { user_id, friend: name },
                ),
                Reply::Failed(e) => step matches Step::Finished(Err(f)) && f.message == e,
                _ => false,
            },
            AddFriend::AwaitInsert { user_id, .. } => match reply {
                Reply::Written => step == Step::<AddFriend, Result<User, FieldError>>::Pending(
                    AddFriend::AwaitOwnName { user_id },
                    Request::FindUserName { user_id },
                ),
                Reply::Failed(e) => step matches Step::Finished(Err(f)) && f.message == e,
                _ => false,
            },
            AddFriend::AwaitOwnName { .. } => match reply {
                Reply::Name(n) => step == Step::<AddFriend, Result<User, FieldError>>::Pending(
                    AddFriend::LookUpSelf { lookup: GetUser::AwaitUser { name: n } },
                    Request::FindUserByName { name: n },
                ),
                Reply::Failed(e) => step matches Step::Finished(Err(f)) && f.message == e,
                _ => false,
            },
            AddFriend::LookUpSelf { lookup } => match step {
                Step::Pending(AddFriend::LookUpSelf { lookup: lookup2 }, r) => lookup.resumes_to(
                    reply,
                    Step::Pending(lookup2, r),
                ),
                Step::Pending(_, _) => false,
                Step::Finished(res) => lookup.resumes_to(reply, Step::Finished(res)),
            },
        }
    }

    pub fn resume(self, reply: Reply) -> (step: Step<AddFriend, Result<User, FieldError>>)
        requires
            self.wf(),
            reply.answers(self.expected()),
        ensures
            self.resumes_to(reply, step),
            step matches Step::Pending(s, r) ==> r == s.expected() && s.wf() && s.remaining() < self.remaining(),
            // the friendship is written only once the friend is known to be
            // somebody else and not a friend yet
            step matches Step::Pending(_, Request::InsertFriend { .. }) ==> self is AwaitFriendship
                && reply == Reply::Exists(false),
            // the request succeeds only after the friendship was written
            step matches Step::Finished(Ok(_)) ==> self.written(),
            step matches Step::Pending(s, _) && s.written() ==> self.written()
                || (self is AwaitInsert && reply == Reply::Written),
    {
        match self {
            AddFriend::LookUpFriend { user_id, name, lookup } => {
                let ghost old_lookup = lookup;
                match lookup.resume(reply) {
                    Step::Pending(lookup2, req) => Step::Pending(
                        AddFriend::LookUpFriend { user_id, name, lookup: lookup2 },
                        req,
                    ),
                    Step::Finished(Err(e)) => Step::Finished(Err(e)),
                    Step::Finished(Ok(friend)) => {
                        if friend.id == user_id {
                            Step::Finished(Err(invalid_field()))
                        } else {
                            let req = Request::FindFriendship { user_id, friend: name.clone() };
                            Step::Pending(AddFriend::AwaitFriendship { user_id, name, friend_id: friend.id }, req)
                        }
                    },
                }
            },
            AddFriend::AwaitFriendship { user_id, name, friend_id } => match reply {
                Reply::Exists(true) => Step::Finished(Err(already_friends())),
                Reply::Exists(false) => {
                    let req = Request::InsertFriend { user_id, friend: name.clone() };
                    Step::Pending(AddFriend::AwaitInsert { user_id, name, friend_id }, req)
                },
                Reply::Failed(e) => Step::Finished(Err(FieldError::new(e))),
                _ => unreached(),
            },
            AddFriend::AwaitInsert { user_id, .. } => match reply {
                Reply::Written => Step::Pending(
                    AddFriend::AwaitOwnName { user_id },
                    Request::FindUserName { user_id },
                ),
                Reply::Failed(e) => Step::Finished(Err(FieldError::new(e))),
                _ => unreached(),
            },
            AddFriend::AwaitOwnName { .. } => match reply {
                Reply::Name(n) => {
                    let (lookup, req) = db_get_user(n);
                    Step::Pending(AddFriend::LookUpSelf { lookup }, req)
                },
                Reply::Failed(e) => Step::Finished(Err(FieldError::new(e))),
                _ => unreached(),
            },
            AddFriend::LookUpSelf { lookup } => match lookup.resume(reply) {
                Step::Pending(lookup2, req) => Step::Pending(AddFriend::LookUpSelf { lookup: lookup2 }, req),
                Step::Finished(res) => Step::Finished(res),
            },
        }
    }
}

impl DeleteFriend {
    pub open spec fn expected(self) -> Request {
        match self {
            DeleteFriend::LookUpFriend { lookup, .. } => lookup.expected(),
            DeleteFriend::AwaitFriendship { user_id, name } => Request::FindFriendship { user_id, friend: name },
            DeleteFriend::AwaitDelete { user_id, name } => Request::DeleteFriend { user_id, friend: name },
            DeleteFriend::AwaitOwnName { user_id } => Request::FindUserName { user_id },
            DeleteFriend::LookUpSelf { lookup } => lookup.expected(),
        }
    }

    /// Whether the friendship has been deleted.
    pub open spec fn written(self) -> bool {
        self is AwaitOwnName || self is LookUpSelf
    }

    /// How many more answers removing the friend needs at most.
    pub open spec fn remaining(self) -> nat {
        match self {
            DeleteFriend::LookUpFriend { lookup, .. } => 5 + lookup.remaining(),
            DeleteFriend::AwaitFriendship { .. } => 5,
            DeleteFriend::AwaitDelete { .. } => 4,
            DeleteFriend::AwaitOwnName { .. } => 3,
            DeleteFriend::LookUpSelf { lookup } => lookup.remaining(),
        }
    }

    /// What removing a friend does with `reply`: a friend that is missing, or
    /// is no friend of the logged-in user, is refused; otherwise the
    /// friendship is deleted and the logged-in user is shown as it is then.
    /// A failed query ends the request with the query's error text.
    pub open spec fn resumes_to(self, reply: Reply, step: Step<DeleteFriend, Result<User, FieldError>>) -> bool {
        match self {
            DeleteFriend::LookUpFriend { user_id, name, lookup } => match step {
                Step::Pending(DeleteFriend::LookUpFriend { user_id: user_id2, name: name2, lookup: lookup2 }, r) => {
                    user_id2 == user_id && name2 == name && lookup.resumes_to(reply, Step::Pending(lookup2, r))
                },
                Step::Pending(DeleteFriend::AwaitFriendship { user_id: user_id2, name: name2 }, r) => {
                    &&& user_id2 == user_id
                    &&& name2 == name
                    &&& r == (Request::FindFriendship { user_id, friend: name })
                    &&& lookup is AwaitFriends
                },
                Step::Pending(_, _) => false,
                Step::Finished(Err(e)) => lookup.resumes_to(reply, Step::Finished(Err(e))),
                Step::Finished(Ok(_)) => false,
            },
            DeleteFriend::AwaitFriendship { user_id, name } => match reply {
                Reply::Exists(false) => step matches Step::Finished(Err(e)) && e.message@ == invalid_field_text(),
                Reply::Exists(true) => step == Step::<DeleteFriend, Result<User, FieldError>>::Pending(
                    DeleteFriend::AwaitDelete { user_id, name },
                    Request::DeleteFriend { user_id, friend: name },
                ),
                Reply::Failed(e) => step matches Step::Finished(Err(f)) && f.message == e,
                _ => false,
            },
            DeleteFriend::AwaitDelete { user_id, .. } => match reply {
                Reply::Written => step == Step::<DeleteFriend, Result<User, FieldError>>::Pending(
                    DeleteFriend::AwaitOwnName { user_id },
                    Request::FindUserName { user_id },
                ),
                Reply::Failed(e) => step matches Step::Finished(Err(f)) && f.message == e,
                _ => false,
            },
            DeleteFriend::AwaitOwnName { .. } => match reply {
                Reply::Name(n) => step == Step::<DeleteFriend, Result<User, FieldError>>::Pending(
                    DeleteFriend::LookUpSelf { lookup: GetUser::AwaitUser { name: n } },
                    Request::FindUserByName { name: n },
                ),
                Reply::Failed(e) => step matches Step::Finished(Err(f)) && f.message == e,
                _ => false,
            },
            DeleteFriend::LookUpSelf { lookup } => match step {
                Step::Pending(DeleteFriend::LookUpSelf { lookup: lookup2 }, r) => lookup.resumes_to(
                    reply,
                    Step::Pending(lookup2, r),
                ),
                Step::Pending(_, _) => false,
                Step::Finished(res) => lookup.resumes_to(reply, Step::Finished(res)),
            },
        }
    }

    pub fn resume(self, reply: Reply) -> (step: Step<DeleteFriend, Result<User, FieldError>>)
        requires
            reply.answers(self.expected()),
        ensures
            self.resumes_to(reply, step),
            step matches Step::Pending(s, r) ==> r == s.expected() && s.remaining() < self.remaining(),
            // the friendship is deleted only once it was found to exist
            step matches Step::Pending(_, Request::DeleteFriend { .. }) ==> self is AwaitFriendship
                && reply == Reply::Exists(true),
            // the request succeeds only after the friendship was deleted
            step matches Step::Finished(Ok(_)) ==> self.written(),
            step matches Step::Pending(s, _) && s.written() ==> self.written()
                || (self is AwaitDelete && reply == Reply::Written),
    {
        match self {
            DeleteFriend::LookUpFriend { user_id, name, lookup } => match lookup.resume(reply) {
                Step::Pending(lookup2, req) => Step::Pending(
                    DeleteFriend::LookUpFriend { user_id, name, lookup: lookup2 },
                    req,
                ),
                Step::Finished(Err(e)) => Step::Finished(Err(e)),
                Step::Finished(Ok(_)) => {
                    let req = Request::FindFriendship { user_id, friend: name.clone() };
                    Step::Pending(DeleteFriend::AwaitFriendship { user_id, name }, req)
                },
            },
            DeleteFriend::AwaitFriendship { user_id, name } => match reply {
                Reply::Exists(false) => Step::Finished(Err(invalid_field())),
                Reply::Exists(true) => {
                    let req = Request::DeleteFriend { user_id, friend: name.clone() };
                    Step::Pending(DeleteFriend::AwaitDelete { user_id, name }, req)
                },
                Reply::Failed(e) => Step::Finished(Err(FieldError::new(e))),
                _ => unreached(),
            },
            DeleteFriend::AwaitDelete { user_id, .. } => match reply {
                Reply::Written => Step::Pending(
                    DeleteFriend::AwaitOwnName { user_id },
                    Request::FindUserName { user_id },
                ),
                Reply::Failed(e) => Step::Finished(Err(FieldError::new(e))),
                _ => unreached(),
            },
            DeleteFriend::AwaitOwnName { .. } => match reply {
                Reply::Name(n) => {
                    let (lookup, req) = db_get_user(n);
                    Step::Pending(DeleteFriend::LookUpSelf { lookup }, req)
                },
                Reply::Failed(e) => Step::Finished(Err(FieldError::new(e))),
                _ => unreached(),
            },
            DeleteFriend::LookUpSelf { lookup } => match lookup.resume(reply) {
                Step::Pending(lookup2, req) => Step::Pending(DeleteFriend::LookUpSelf { lookup: lookup2 }, req),
                Step::Finished(res) => Step::Finished(res),
            },
        }
    }
}

/// Listing users gives one user for each name that the listing of names
/// returned: whenever the listing finishes with a list, that list is as long
/// as the names.
pub proof fn users_lists_every_name(
    s: Users,
    reply: Reply,
    step: Step<Users, Result<Vec<User>, FieldError>>,
    listed: Vec<User>,
)
    requires
        s.wf(),
        s.resumes_to(reply, step),
        step == Step::<Users, Result<Vec<User>, FieldError>>::Finished(Ok(listed)),
    ensures
        s matches Users::Collect { names, .. } ==> listed@.len() == names@.len(),
        s is AwaitNames ==> (reply matches Reply::Names(ns) && ns@.len() == 0 && listed@.len() == 0),
{
}

/// Nobody becomes their own friend: whenever adding a friend goes on to
/// write the friendship, the user found under the given name is somebody
/// else than the logged-in user.
pub proof fn never_own_friend(s: AddFriend, reply: Reply, step: Step<AddFriend, Result<User, FieldError>>)
    requires
        s.wf(),
        s.resumes_to(reply, step),
        step matches Step::Pending(_, Request::InsertFriend { .. }),
    ensures
        s matches AddFriend::AwaitFriendship { user_id, friend_id, .. } && friend_id != user_id,
        reply == Reply::Exists(false),
{
}

} // verus!
