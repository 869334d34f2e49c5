use vstd::prelude::*;

use crate::database::{GetUser, Reply, Request, Step};
use crate::errors::{AppError, FieldError};
use crate::handlers::{signup_writes, Login, Outcome};
use crate::graphql_schema::{already_friends_text, invalid_field_text, AboutMe, AddFriend, DeleteFriend, Users};
use crate::schemas::{FullUser, LogInUser, SignUpUser, User};

verus! {

/// A model of the two tables behind the API: the name of each user id; the
/// credentials of each user name, as the user's id and password hash; and
/// the recorded friendships as (user id, friend's name) pairs.
pub struct Tables {
    pub names: Map<u128, Seq<char>>,
    pub credentials: Map<Seq<char>, (u128, Seq<char>)>,
    pub friends: Set<(u128, Seq<char>)>,
}

impl Tables {
    /// No two users share a name.
    pub open spec fn names_unique(self) -> bool {
        forall|a: u128, b: u128|
            #![trigger self.names[a], self.names[b]]
            self.names.contains_key(a) && self.names.contains_key(b) && self.names[a] == self.names[b]
                ==> a == b
    }

    /// `listed` names exactly the friends recorded for `user_id`.
    pub open spec fn lists_friends_of(self, user_id: u128, listed: Seq<String>) -> bool {
        forall|f: Seq<char>|
            #![trigger self.friends.contains((user_id, f))]
            self.friends.contains((user_id, f)) <==> exists|i: int| 0 <= i < listed.len() && #[trigger] listed[i]@ == f
    }

    /// `listed` holds the name of each user, and no other name.
    pub open spec fn lists_names(self, listed: Seq<String>) -> bool {
        &&& forall|i: int| 0 <= i < listed.len() ==> exists|id: u128| #[trigger] self.names.contains_key(id)
            && self.names[id] == (#[trigger] listed[i])@
        &&& forall|id: u128| #[trigger] self.names.contains_key(id) ==> exists|i: int| 0 <= i < listed.len()
            && (#[trigger] listed[i])@ == self.names[id]
    }

    /// `u` shows the user called `name` with exactly the friends recorded for it.
    pub open spec fn shows_user(self, u: User, name: Seq<char>) -> bool {
        &&& self.names.contains_key(u.id)
        &&& self.names[u.id] == name
        &&& u.name@ == name
        &&& self.lists_friends_of(u.id, u.friends@)
    }

    /// `listed` shows every user, and only users, each with exactly its
    /// recorded friends.
    pub open spec fn shows_every_user(self, listed: Seq<User>) -> bool {
        &&& forall|i: int| 0 <= i < listed.len() ==> self.shows_user(#[trigger] listed[i], self.names[listed[i].id])
        &&& forall|id: u128| #[trigger] self.names.contains_key(id) ==> exists|i: int| 0 <= i < listed.len()
            && (#[trigger] listed[i]).id == id
    }
}

/// `reply` is the correct answer of the tables `db` to `req`, and `after`
/// is what the tables are once `req` is done. Only database work is
/// modelled, and only answers of work that succeeded; the time of the last
/// log in is not modelled.
pub open spec fn answered(db: Tables, req: Request, reply: Reply, after: Tables) -> bool {
    match req {
        Request::FindUserByName { name } => after == db && (reply matches Reply::UserRow(id, n) && n@ == name@
            && db.names.contains_key(id) && db.names[id] == name@),
        Request::ListFriends { user_id } => after == db && (reply matches Reply::Names(v) && db.lists_friends_of(
            user_id,
            v@,
        )),
        Request::ListUserNames => after == db && (reply matches Reply::Names(v) && db.lists_names(v@)),
        Request::FindProfile { user_id } => after == db && (reply matches Reply::Profile(r) && r.id == user_id
            && db.names.contains_key(user_id) && r.name@ == db.names[user_id]),
        Request::FindUserName { user_id } => after == db && (reply matches Reply::Name(n)
            && db.names.contains_key(user_id) && n@ == db.names[user_id]),
        Request::FindFriendship { user_id, friend } => after == db && reply == Reply::Exists(
            db.friends.contains((user_id, friend@)),
        ),
        Request::InsertFriend { user_id, friend } => reply == Reply::Written && after == (Tables {
            friends: db.friends.insert((user_id, friend@)),
            ..db
        }),
        Request::DeleteFriend { user_id, friend } => reply == Reply::Written && after == (Tables {
            friends: db.friends.remove((user_id, friend@)),
            ..db
        }),
        Request::FindCredentials { username } => after == db && (reply matches Reply::Credentials(row)
            && db.credentials.contains_key(username@) && row.id == db.credentials[username@].0
            && row.username@ == username@ && row.password_hash@ == db.credentials[username@].1),
        Request::InsertUser { id, name, username, password_hash } => {
            &&& !db.names.contains_key(id)
            &&& !db.credentials.contains_key(username@)
            &&& reply == Reply::Written
            &&& after == (Tables {
                names: db.names.insert(id, name@),
                credentials: db.credentials.insert(username@, (id, password_hash@)),
                friends: db.friends,
            })
        },
        Request::UpdateLoggedAt { user_id } => reply == Reply::Written && after == db,
        _ => false,
    }
}

/// The lookup `s` of the user called `name` agrees with the tables `db`.
pub open spec fn lookup_agrees(s: GetUser, db: Tables, name: Seq<char>) -> bool {
    match s {
        GetUser::AwaitUser { name: n } => n@ == name,
        GetUser::AwaitFriends { id, name: n } => n@ == name && db.names.contains_key(id) && db.names[id] == name,
    }
}

/// Looking a user up reads the tables: answered correctly, it changes
/// nothing and ends with the user of that name and exactly that user's
/// friends.
pub proof fn lookup_shows_user(
    s: GetUser,
    db: Tables,
    name: Seq<char>,
    reply: Reply,
    after: Tables,
    step: Step<GetUser, Result<User, FieldError>>,
)
    requires
        lookup_agrees(s, db, name),
        answered(db, s.expected(), reply, after),
        s.resumes_to(reply, step),
    ensures
        after == db,
        step matches Step::Pending(s2, _) ==> lookup_agrees(s2, db, name),
        step matches Step::Finished(r) ==> (r matches Ok(u) && db.shows_user(u, name)),
{
}

/// The listing `s` of all users agrees with the tables `db`.
pub open spec fn listing_agrees(s: Users, db: Tables) -> bool {
    match s {
        Users::AwaitNames => true,
        Users::Collect { names, next, users, current } => {
            &&& db.lists_names(names@)
            &&& next < names.len()
            &&& users.len() == next
            &&& forall|i: int| 0 <= i < next ==> db.shows_user(#[trigger] users@[i], names@[i]@)
            &&& lookup_agrees(current, db, names@[next as int]@)
        },
    }
}

/// Listing users reads the tables: answered correctly, each step keeps the
/// listing in agreement with the tables, and a finished listing shows every
/// user with exactly that user's friends.
pub proof fn users_show_every_user(
    s: Users,
    db: Tables,
    reply: Reply,
    after: Tables,
    step: Step<Users, Result<Vec<User>, FieldError>>,
)
    requires
        db.names_unique(),
        s.wf(),
        listing_agrees(s, db),
        answered(db, s.expected(), reply, after),
        s.resumes_to(reply, step),
    ensures
        after == db,
        step matches Step::Pending(s2, _) ==> listing_agrees(s2, db),
        step matches Step::Finished(r) ==> (r matches Ok(listed) && db.shows_every_user(listed@)),
{
    match s {
        Users::AwaitNames => {
            if let Step::Finished(Ok(listed)) = step {
                assert forall|id: u128| #[trigger] db.names.contains_key(id) implies exists|i: int|
                    0 <= i < listed@.len() && (#[trigger] listed@[i]).id == id by {
                    if let Reply::Names(ns) = reply {
                        let i = choose|i: int| 0 <= i < ns@.len() && (#[trigger] ns@[i])@ == db.names[id];
                    }
                }
            }
        },
        Users::Collect { names, next, users, current } => {
            let n = names@[next as int]@;
            match step {
                Step::Pending(Users::Collect { names: names2, next: next2, users: users2, current: current2 }, r) => {
                    if next2 == next && users2 == users && current.resumes_to(reply, Step::Pending(current2, r)) {
                        lookup_shows_user(current, db, n, reply, after, Step::Pending(current2, r));
                    } else {
                        let u = users2@.last();
                        lookup_shows_user(current, db, n, reply, after, Step::Finished(Ok(u)));
                        assert forall|i: int| 0 <= i < next2 implies db.shows_user(
                            #[trigger] users2@[i],
                            names2@[i]@,
                        ) by {
                            if i < next {
                                assert(users2@[i] == users2@.drop_last()[i]);
                            }
                        }
                    }
                },
                Step::Pending(Users::AwaitNames, _) => {},
                Step::Finished(Err(e)) => {
                    lookup_shows_user(current, db, n, reply, after, Step::Finished(Err(e)));
                },
                Step::Finished(Ok(listed)) => {
                    let u = listed@.last();
                    lookup_shows_user(current, db, n, reply, after, Step::Finished(Ok(u)));
                    assert forall|i: int| 0 <= i < listed@.len() implies db.shows_user(
                        #[trigger] listed@[i],
                        names@[i]@,
                    ) by {
                        if i < next {
                            assert(listed@[i] == listed@.drop_last()[i]);
                        }
                    }
                    assert forall|i: int| 0 <= i < listed@.len() implies db.shows_user(
                        #[trigger] listed@[i],
                        db.names[listed@[i].id],
                    ) by {
                        assert(db.shows_user(listed@[i], names@[i]@));
                    }
                    assert forall|id: u128| #[trigger] db.names.contains_key(id) implies exists|i: int|
                        0 <= i < listed@.len() && (#[trigger] listed@[i]).id == id by {
                        let i = choose|i: int| 0 <= i < names@.len() && (#[trigger] names@[i])@ == db.names[id];
                        assert(db.shows_user(listed@[i], names@[i]@));
                        assert(db.names[listed@[i].id] == db.names[id]);
                    }
                },
            }
        },
    }
}

/// Reading the own record `s` of user `me` agrees with the tables `db`.
pub open spec fn profile_agrees(s: AboutMe, db: Tables, me: u128) -> bool {
    match s {
        AboutMe::AwaitProfile { user_id } => user_id == me,
        AboutMe::AwaitFriends { record } => record.id == me && db.names.contains_key(me)
            && record.name@ == db.names[me],
    }
}

/// Reading the own record reads the tables: answered correctly, it shows the
/// logged-in user with exactly that user's friends.
pub proof fn about_me_shows_own_record(
    s: AboutMe,
    db: Tables,
    me: u128,
    reply: Reply,
    after: Tables,
    step: Step<AboutMe, Result<FullUser, FieldError>>,
)
    requires
        profile_agrees(s, db, me),
        answered(db, s.expected(), reply, after),
        s.resumes_to(reply, step),
    ensures
        after == db,
        step matches Step::Pending(s2, _) ==> profile_agrees(s2, db, me),
        step matches Step::Finished(r) ==> (r matches Ok(u) && u.id == me && db.names.contains_key(me)
            && u.name@ == db.names[me] && db.lists_friends_of(me, u.friends@)),
{
}

/// The tables `db` do not give user `me` the name `name`.
pub open spec fn not_own_name(db: Tables, me: u128, name: Seq<char>) -> bool {
    !(db.names.contains_key(me) && db.names[me] == name)
}

/// Some user other than `me` is called `name` in the tables `db`.
pub open spec fn other_has_name(db: Tables, me: u128, name: Seq<char>) -> bool {
    exists|f: u128| #[trigger] db.names.contains_key(f) && db.names[f] == name && f != me
}

/// Adding the friend called `name` for user `me`, in state `s`, agrees with
/// the tables `db`, which were `start` when adding began.
pub open spec fn adding_agrees(s: AddFriend, db: Tables, start: Tables, me: u128, name: Seq<char>) -> bool {
    &&& db.names == start.names
    &&& db.credentials == start.credentials
    &&& match s {
        AddFriend::LookUpFriend { user_id, name: n, lookup } => user_id == me && n@ == name
            && lookup_agrees(lookup, db, name) && db == start,
        AddFriend::AwaitFriendship { user_id, name: n, friend_id } => user_id == me && n@ == name && db == start
            && db.names.contains_key(friend_id) && db.names[friend_id] == name && friend_id != me,
        AddFriend::AwaitInsert { user_id, name: n, friend_id } => user_id == me && n@ == name && db == start
            && db.names.contains_key(friend_id) && db.names[friend_id] == name && friend_id != me
            && !start.friends.contains((me, name)),
        AddFriend::AwaitOwnName { user_id } => user_id == me && db.friends == start.friends.insert((me, name))
            && !start.friends.contains((me, name)) && other_has_name(start, me, name),
        AddFriend::LookUpSelf { lookup } => db.friends == start.friends.insert((me, name))
            && !start.friends.contains((me, name)) && other_has_name(start, me, name)
            && db.names.contains_key(me) && lookup_agrees(lookup, db, db.names[me]),
    }
}

/// Adding the friend called `name` for `me` went through from tables `start`
/// to tables `after`, answering `u`: the name belongs to another user, the
/// friendship was new and is now recorded, nothing else changed, and `u` is
/// a user carrying `me`'s name, listing exactly its recorded friends.
pub open spec fn add_recorded(start: Tables, after: Tables, me: u128, name: Seq<char>, u: User) -> bool {
    &&& after.names == start.names
    &&& after.credentials == start.credentials
    &&& after.friends == start.friends.insert((me, name))
    &&& !start.friends.contains((me, name))
    &&& other_has_name(start, me, name)
    &&& start.names.contains_key(me)
    &&& u.name@ == start.names[me]
    &&& start.names.contains_key(u.id)
    &&& start.names[u.id] == start.names[me]
    &&& after.lists_friends_of(u.id, u.friends@)
}

/// Adding the friend called `name` for `me` succeeded in the sense the API
/// promises: besides what [`add_recorded`] says, the name is not `me`'s own,
/// and `u` is `me` itself, listing the new friend.
pub open spec fn add_succeeded(start: Tables, after: Tables, me: u128, name: Seq<char>, u: User) -> bool {
    &&& add_recorded(start, after, me, name, u)
    &&& not_own_name(start, me, name)
    &&& u.id == me
    &&& after.lists_friends_of(me, u.friends@)
    &&& exists|i: int| 0 <= i < u.friends@.len() && (#[trigger] u.friends@[i])@ == name
}

/// Adding the friend called `name` for `me` was refused with `e`, changing
/// nothing: the friendship with a user of that name existed already, or the
/// user found under the name is `me`.
pub open spec fn add_refused(start: Tables, after: Tables, me: u128, name: Seq<char>, e: FieldError) -> bool {
    &&& after == start
    &&& {
        ||| start.friends.contains((me, name)) && other_has_name(start, me, name)
            && e.message@ == already_friends_text()
        ||| !not_own_name(start, me, name) && e.message@ == invalid_field_text()
    }
}

/// Each step of adding a friend, answered correctly, keeps the request in
/// agreement with the tables; a finished request either went through,
/// having recorded the new friendship, or was refused without change.
pub proof fn add_friend_step(
    s: AddFriend,
    db: Tables,
    start: Tables,
    me: u128,
    name: Seq<char>,
    reply: Reply,
    after: Tables,
    step: Step<AddFriend, Result<User, FieldError>>,
)
    requires
        adding_agrees(s, db, start, me, name),
        answered(db, s.expected(), reply, after),
        s.resumes_to(reply, step),
    ensures
        step matches Step::Pending(s2, _) ==> adding_agrees(s2, after, start, me, name),
        step matches Step::Finished(Ok(u)) ==> add_recorded(start, after, me, name, u),
        step matches Step::Finished(Err(e)) ==> add_refused(start, after, me, name, e),
{
    match s {
        AddFriend::LookUpFriend { lookup, .. } => {
            match step {
                Step::Pending(AddFriend::LookUpFriend { lookup: lookup2, .. }, r) => {
                    lookup_shows_user(lookup, db, name, reply, after, Step::Pending(lookup2, r));
                },
                Step::Finished(Err(e)) => {
                    if lookup.resumes_to(reply, Step::Finished(Err(e))) {
                        lookup_shows_user(lookup, db, name, reply, after, Step::Finished(Err(e)));
                    }
                },
                _ => {},
            }
        },
        AddFriend::AwaitFriendship { friend_id, .. } => {
            assert(db.names.contains_key(friend_id));
        },
        AddFriend::AwaitInsert { friend_id, .. } => {
            assert(db.names.contains_key(friend_id));
        },
        AddFriend::LookUpSelf { lookup } => {
            let own = db.names[me];
            match step {
                Step::Pending(AddFriend::LookUpSelf { lookup: lookup2 }, r) => {
                    lookup_shows_user(lookup, db, own, reply, after, Step::Pending(lookup2, r));
                },
                Step::Finished(res) => {
                    lookup_shows_user(lookup, db, own, reply, after, Step::Finished(res));
                },
                _ => {},
            }
        },
        _ => {},
    }
}

/// A run of adding the friend called `name` for `me`: `states[i]` is the
/// state before the `i`-th answer `replies[i]`, given by tables `tables[i]`
/// that leave `tables[i + 1]`; the run begins where `Mutation::add_friend`
/// begins and ends with `out`.
pub open spec fn add_friend_run(
    me: u128,
    name: String,
    states: Seq<AddFriend>,
    replies: Seq<Reply>,
    tables: Seq<Tables>,
    out: Result<User, FieldError>,
) -> bool {
    &&& replies.len() >= 1
    &&& states.len() == replies.len()
    &&& tables.len() == replies.len() + 1
    &&& states[0] == (AddFriend::LookUpFriend { user_id: me, name, lookup: GetUser::AwaitUser { name } })
    &&& forall|i: int| 0 <= i < replies.len() ==> answered(tables[i], states[i].expected(), #[trigger] replies[i], tables[i + 1])
    &&& forall|i: int| 0 <= i < replies.len() - 1 ==> states[i].resumes_to(
        #[trigger] replies[i],
        Step::Pending(states[i + 1], states[i + 1].expected()),
    )
    &&& states.last().resumes_to(replies.last(), Step::Finished(out))
}

/// Every state of a run of adding a friend agrees with the tables of that
/// point of the run.
pub proof fn add_friend_run_agrees(
    me: u128,
    name: String,
    states: Seq<AddFriend>,
    replies: Seq<Reply>,
    tables: Seq<Tables>,
    out: Result<User, FieldError>,
    k: int,
)
    requires
        add_friend_run(me, name, states, replies, tables, out),
        0 <= k < replies.len(),
    ensures
        adding_agrees(states[k], tables[k], tables[0], me, name@),
    decreases k,
{
    if k > 0 {
        add_friend_run_agrees(me, name, states, replies, tables, out, k - 1);
        let r = replies[k - 1];
        add_friend_step(
            states[k - 1],
            tables[k - 1],
            tables[0],
            me,
            name@,
            r,
            tables[k],
            Step::Pending(states[k], states[k].expected()),
        );
    }
}

/// Adding a friend, run to its end with every request answered correctly,
/// either goes through, recording the new friendship and showing a user of
/// the logged-in user's name, or is refused without changing the tables.
/// When no two users share a name, a success shows the logged-in user
/// itself, listing the new friend.
pub proof fn add_friend_run_outcome(
    me: u128,
    name: String,
    states: Seq<AddFriend>,
    replies: Seq<Reply>,
    tables: Seq<Tables>,
    out: Result<User, FieldError>,
)
    requires
        add_friend_run(me, name, states, replies, tables, out),
    ensures
        out matches Ok(u) ==> add_recorded(tables[0], tables.last(), me, name@, u),
        out is Ok && tables[0].names_unique() ==> add_succeeded(tables[0], tables.last(), me, name@, out->Ok_0),
        out matches Err(e) ==> add_refused(tables[0], tables.last(), me, name@, e),
{
    let k = replies.len() - 1;
    add_friend_run_agrees(me, name, states, replies, tables, out, k);
    let r = replies[k];
    add_friend_step(states[k], tables[k], tables[0], me, name@, r, tables[k + 1], Step::Finished(out));
    let start = tables[0];
    let after = tables.last();
    if let Ok(u) = out {
        if start.names_unique() {
            assert(start.names[u.id] == start.names[me]);
            assert(u.id == me);
            let f = choose|f: u128| #[trigger] start.names.contains_key(f) && start.names[f] == name@ && f != me;
            if start.names.contains_key(me) && start.names[me] == name@ {
                assert(start.names[me] == start.names[f]);
            }
            assert(after.friends.contains((me, name@)));
            let i = choose|i: int| 0 <= i < u.friends@.len() && (#[trigger] u.friends@[i])@ == name@;
        }
    }
}

/// Adding the same friend twice: the second time is refused and changes
/// nothing, so the friendship is never recorded twice. The refusal is the
/// one for a friend the user already has whenever the name is not the
/// user's own, in particular whenever no two users share a name; when the
/// user shares the friend's name, the lookup may find the user itself, and
/// the refusal is the one for an invalid field.
pub proof fn adding_twice_is_refused(
    me: u128,
    name: String,
    states1: Seq<AddFriend>,
    replies1: Seq<Reply>,
    tables1: Seq<Tables>,
    first: User,
    states2: Seq<AddFriend>,
    replies2: Seq<Reply>,
    tables2: Seq<Tables>,
    second: Result<User, FieldError>,
)
    requires
        add_friend_run(me, name, states1, replies1, tables1, Ok(first)),
        add_friend_run(me, name, states2, replies2, tables2, second),
        tables2[0] == tables1.last(),
    ensures
        second is Err,
        tables2.last() == tables2[0],
        not_own_name(tables2[0], me, name@) ==> (second matches Err(e) && e.message@ == already_friends_text()),
        tables1[0].names_unique() ==> (second matches Err(e) && e.message@ == already_friends_text()),
{
    add_friend_run_outcome(me, name, states1, replies1, tables1, Ok(first));
    add_friend_run_outcome(me, name, states2, replies2, tables2, second);
    assert(tables2[0].friends.contains((me, name@)));
    assert(tables2[0].names == tables1[0].names);
    if tables1[0].names_unique() {
        let start = tables1[0];
        let f = choose|f: u128| #[trigger] start.names.contains_key(f) && start.names[f] == name@ && f != me;
        if start.names.contains_key(me) && start.names[me] == name@ {
            assert(start.names[me] == start.names[f]);
        }
    }
}

/// Removing the friend called `name` for user `me`, in state `s`, agrees
/// with the tables `db`, which were `start` when removing began.
pub open spec fn removing_agrees(s: DeleteFriend, db: Tables, start: Tables, me: u128, name: Seq<char>) -> bool {
    &&& db.names == start.names
    &&& db.credentials == start.credentials
    &&& match s {
        DeleteFriend::LookUpFriend { user_id, name: n, lookup } => user_id == me && n@ == name
            && lookup_agrees(lookup, db, name) && db == start,
        DeleteFriend::AwaitFriendship { user_id, name: n } => user_id == me && n@ == name && db == start,
        DeleteFriend::AwaitDelete { user_id, name: n } => user_id == me && n@ == name && db == start
            && start.friends.contains((me, name)),
        DeleteFriend::AwaitOwnName { user_id } => user_id == me && db.friends == start.friends.remove((me, name))
            && start.friends.contains((me, name)),
        DeleteFriend::LookUpSelf { lookup } => db.friends == start.friends.remove((me, name))
            && start.friends.contains((me, name)) && db.names.contains_key(me)
            && lookup_agrees(lookup, db, db.names[me]),
    }
}

/// Removing the friend called `name` for `me` succeeded from tables `start`
/// to tables `after`, answering `u`: the friendship existed and is no longer
/// recorded, nothing else changed, and `u` is `me`, with `me`'s name,
/// listing exactly its recorded friends, without the removed one.
pub open spec fn delete_succeeded(start: Tables, after: Tables, me: u128, name: Seq<char>, u: User) -> bool {
    &&& after.names == start.names
    &&& after.credentials == start.credentials
    &&& start.names.contains_key(me)
    &&& u.name@ == start.names[me]
    &&& after.friends == start.friends.remove((me, name))
    &&& start.friends.contains((me, name))
    &&& u.id == me
    &&& after.lists_friends_of(me, u.friends@)
    &&& forall|i: int| 0 <= i < u.friends@.len() ==> (#[trigger] u.friends@[i])@ != name
}

/// Removing the friend called `name` for `me` was refused with `e`,
/// changing nothing: there was no such friendship.
pub open spec fn delete_refused(start: Tables, after: Tables, me: u128, name: Seq<char>, e: FieldError) -> bool {
    &&& after == start
    &&& !start.friends.contains((me, name))
    &&& e.message@ == invalid_field_text()
}

/// Each step of removing a friend, answered correctly, keeps the request in
/// agreement with the tables; a finished request either succeeded, having
/// deleted the friendship and shown the user without it, or was refused
/// without change.
pub proof fn delete_friend_step(
    s: DeleteFriend,
    db: Tables,
    start: Tables,
    me: u128,
    name: Seq<char>,
    reply: Reply,
    after: Tables,
    step: Step<DeleteFriend, Result<User, FieldError>>,
)
    requires
        start.names_unique(),
        removing_agrees(s, db, start, me, name),
        answered(db, s.expected(), reply, after),
        s.resumes_to(reply, step),
    ensures
        step matches Step::Pending(s2, _) ==> removing_agrees(s2, after, start, me, name),
        step matches Step::Finished(Ok(u)) ==> delete_succeeded(start, after, me, name, u),
        step matches Step::Finished(Err(e)) ==> delete_refused(start, after, me, name, e),
{
    match s {
        DeleteFriend::LookUpFriend { lookup, .. } => {
            match step {
                Step::Pending(DeleteFriend::LookUpFriend { lookup: lookup2, .. }, r) => {
                    lookup_shows_user(lookup, db, name, reply, after, Step::Pending(lookup2, r));
                },
                Step::Finished(Err(e)) => {
                    lookup_shows_user(lookup, db, name, reply, after, Step::Finished(Err(e)));
                },
                _ => {},
            }
        },
        DeleteFriend::LookUpSelf { lookup } => {
            let own = db.names[me];
            match step {
                Step::Pending(DeleteFriend::LookUpSelf { lookup: lookup2 }, r) => {
                    lookup_shows_user(lookup, db, own, reply, after, Step::Pending(lookup2, r));
                },
                Step::Finished(res) => {
                    lookup_shows_user(lookup, db, own, reply, after, Step::Finished(res));
                    if let Ok(u) = res {
                        assert(db.names[u.id] == db.names[me]);
                        assert(u.id == me);
                        assert forall|i: int| 0 <= i < u.friends@.len() implies (#[trigger] u.friends@[i])@
                            != name by {
                            if u.friends@[i]@ == name {
                                assert(db.friends.contains((me, u.friends@[i]@)));
                            }
                        }
                    }
                },
                _ => {},
            }
        },
        _ => {},
    }
}

/// A run of removing the friend called `name` for `me`, laid out as for
/// [`add_friend_run`]; it begins where `Mutation::delete_friend` begins.
pub open spec fn delete_friend_run(
    me: u128,
    name: String,
    states: Seq<DeleteFriend>,
    replies: Seq<Reply>,
    tables: Seq<Tables>,
    out: Result<User, FieldError>,
) -> bool {
    &&& replies.len() >= 1
    &&& states.len() == replies.len()
    &&& tables.len() == replies.len() + 1
    &&& states[0] == (DeleteFriend::LookUpFriend { user_id: me, name, lookup: GetUser::AwaitUser { name } })
    &&& forall|i: int| 0 <= i < replies.len() ==> answered(tables[i], states[i].expected(), #[trigger] replies[i], tables[i + 1])
    &&& forall|i: int| 0 <= i < replies.len() - 1 ==> states[i].resumes_to(
        #[trigger] replies[i],
        Step::Pending(states[i + 1], states[i + 1].expected()),
    )
    &&& states.last().resumes_to(replies.last(), Step::Finished(out))
}

/// Every state of a run of removing a friend agrees with the tables of that
/// point of the run.
pub proof fn delete_friend_run_agrees(
    me: u128,
    name: String,
    states: Seq<DeleteFriend>,
    replies: Seq<Reply>,
    tables: Seq<Tables>,
    out: Result<User, FieldError>,
    k: int,
)
    requires
        tables[0].names_unique(),
        delete_friend_run(me, name, states, replies, tables, out),
        0 <= k < replies.len(),
    ensures
        removing_agrees(states[k], tables[k], tables[0], me, name@),
    decreases k,
{
    if k > 0 {
        delete_friend_run_agrees(me, name, states, replies, tables, out, k - 1);
        let r = replies[k - 1];
        delete_friend_step(
            states[k - 1],
            tables[k - 1],
            tables[0],
            me,
            name@,
            r,
            tables[k],
            Step::Pending(states[k], states[k].expected()),
        );
    }
}

/// Removing a friend, run to its end with every request answered correctly,
/// either succeeds, deleting the friendship and showing the user without
/// it, or is refused without changing the tables.
pub proof fn delete_friend_run_outcome(
    me: u128,
    name: String,
    states: Seq<DeleteFriend>,
    replies: Seq<Reply>,
    tables: Seq<Tables>,
    out: Result<User, FieldError>,
)
    requires
        tables[0].names_unique(),
        delete_friend_run(me, name, states, replies, tables, out),
    ensures
        out matches Ok(u) ==> delete_succeeded(tables[0], tables.last(), me, name@, u),
        out matches Err(e) ==> delete_refused(tables[0], tables.last(), me, name@, e),
{
    let k = replies.len() - 1;
    delete_friend_run_agrees(me, name, states, replies, tables, out, k);
    let r = replies[k];
    delete_friend_step(states[k], tables[k], tables[0], me, name@, r, tables[k + 1], Step::Finished(out));
}

/// Removing a friend and adding them back restores the friendships: when
/// `name` belongs to another user and is a friend of `me`, removing it and
/// then adding it again both succeed, the tables end as they began, and the
/// user shown at the end lists the friend again.
pub proof fn delete_then_add_restores(
    me: u128,
    name: String,
    friend: u128,
    del_states: Seq<DeleteFriend>,
    del_replies: Seq<Reply>,
    del_tables: Seq<Tables>,
    removed: User,
    add_states: Seq<AddFriend>,
    add_replies: Seq<Reply>,
    add_tables: Seq<Tables>,
    out: Result<User, FieldError>,
)
    requires
        del_tables[0].names_unique(),
        del_tables[0].names.contains_key(friend),
        del_tables[0].names[friend] == name@,
        friend != me,
        del_tables[0].friends.contains((me, name@)),
        delete_friend_run(me, name, del_states, del_replies, del_tables, Ok(removed)),
        add_friend_run(me, name, add_states, add_replies, add_tables, out),
        add_tables[0] == del_tables.last(),
    ensures
        out matches Ok(u) && u.id == me && exists|i: int| 0 <= i < u.friends@.len() && (#[trigger] u.friends@[i])@
            == name@,
        add_tables.last().names == del_tables[0].names,
        add_tables.last().friends == del_tables[0].friends,
{
    let start = del_tables[0];
    delete_friend_run_outcome(me, name, del_states, del_replies, del_tables, Ok(removed));
    assert(add_tables[0].names == start.names);
    add_friend_run_outcome(me, name, add_states, add_replies, add_tables, out);
    if start.names.contains_key(me) && start.names[me] == name@ {
        assert(start.names[me] == start.names[friend]);
    }
    assert(!add_tables[0].friends.contains((me, name@)));
    if let Ok(u) = out {
        assert(add_tables.last().friends =~= start.friends);
    }
}

/// Adding a friend and removing them again restores the friendships: when
/// `me` has no friendship with `name` and adding it succeeds, removing it
/// then succeeds too, the tables end as they began, and the user shown at
/// the end no longer lists the friend.
pub proof fn add_then_delete_restores(
    me: u128,
    name: String,
    add_states: Seq<AddFriend>,
    add_replies: Seq<Reply>,
    add_tables: Seq<Tables>,
    added: User,
    del_states: Seq<DeleteFriend>,
    del_replies: Seq<Reply>,
    del_tables: Seq<Tables>,
    out: Result<User, FieldError>,
)
    requires
        add_tables[0].names_unique(),
        add_friend_run(me, name, add_states, add_replies, add_tables, Ok(added)),
        delete_friend_run(me, name, del_states, del_replies, del_tables, out),
        del_tables[0] == add_tables.last(),
    ensures
        out matches Ok(u) && u.id == me && forall|i: int| 0 <= i < u.friends@.len() ==> (#[trigger] u.friends@[i])@
            != name@,
        del_tables.last().names == add_tables[0].names,
        del_tables.last().friends == add_tables[0].friends,
{
    let start = add_tables[0];
    add_friend_run_outcome(me, name, add_states, add_replies, add_tables, Ok(added));
    assert(del_tables[0].names == start.names);
    delete_friend_run_outcome(me, name, del_states, del_replies, del_tables, out);
    assert(del_tables[0].friends.contains((me, name@)));
    if let Ok(u) = out {
        assert(del_tables.last().friends =~= start.friends);
    }
}

/// Whoever signed up can log in with the same user name and password: once
/// the row that signing up writes is stored, the credentials lookup of a log
/// in under that user name finds it, the password is accepted, and the log
/// in goes on to record its time for the new user.
pub proof fn signed_up_user_can_log_in(
    user: SignUpUser,
    written: Request,
    db: Tables,
    stored: Tables,
    log_user: LogInUser,
    reply: Reply,
    after: Tables,
    step: Step<Login, Result<Outcome, AppError>>,
)
    requires
        signup_writes(user, written),
        answered(db, written, Reply::Written, stored),
        log_user.username@ == user.username@,
        log_user.password@ == user.password@,
        answered(stored, Request::FindCredentials { username: log_user.username }, reply, after),
        (Login::AwaitCredentials { username: log_user.username, password: log_user.password }).resumes_to(
            reply,
            step,
        ),
    ensures
        after == stored,
        step matches Step::Pending(Login::AwaitUpdate { user: u, .. }, r) && u.id == written->InsertUser_id
            && r == (Request::UpdateLoggedAt { user_id: u.id }),
{
}

/// Two stored sign ups never share an id: when the rows of two sign ups are
/// both stored, one after the other, their ids differ, and both users are in
/// the tables under their own names and user names.
pub proof fn stored_sign_ups_have_distinct_ids(
    first: SignUpUser,
    first_row: Request,
    second: SignUpUser,
    second_row: Request,
    db: Tables,
    db1: Tables,
    db2: Tables,
)
    requires
        signup_writes(first, first_row),
        answered(db, first_row, Reply::Written, db1),
        signup_writes(second, second_row),
        answered(db1, second_row, Reply::Written, db2),
    ensures
        first_row->InsertUser_id != second_row->InsertUser_id,
        db2.names.contains_key(first_row->InsertUser_id),
        db2.names[first_row->InsertUser_id] == first.name@,
        db2.names[second_row->InsertUser_id] == second.name@,
        db2.credentials[first.username@].0 == first_row->InsertUser_id,
        db2.credentials[second.username@].0 == second_row->InsertUser_id,
{
    assert(db1.names.contains_key(first_row->InsertUser_id));
}

} // verus!
