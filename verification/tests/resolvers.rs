use graphql_server::database::{db_get_user, GetUser, Reply, Request, Step, UserRecord};
use graphql_server::errors::FieldError;
use graphql_server::graphql_schema::{create_context, AddFriend, DeleteFriend, Mutation, Query, Users};
use graphql_server::schemas::User;

fn s(x: &str) -> String {
    x.to_string()
}

fn names(xs: &[&str]) -> Vec<String> {
    xs.iter().map(|x| x.to_string()).collect()
}

fn expect_pending<S, T>(step: Step<S, T>) -> (S, Request) {
    match step {
        Step::Pending(state, req) => (state, req),
        Step::Finished(_) => panic!("expected the request to go on"),
    }
}

fn expect_finished<S, T>(step: Step<S, T>) -> T {
    match step {
        Step::Finished(out) => out,
        Step::Pending(_, req) => panic!("expected the request to finish, it asks {:?}", req),
    }
}

#[test]
fn version_is_0_1() {
    assert_eq!(Query::version(), "0.1");
}

#[test]
fn replies_match_requests() {
    let by_name = Request::FindUserByName { name: s("a") };
    assert!(Reply::UserRow(1, s("a")).is_answer_to(&by_name));
    assert!(Reply::Failed(s("e")).is_answer_to(&by_name));
    assert!(!Reply::Written.is_answer_to(&by_name));
    assert!(Reply::Names(vec![]).is_answer_to(&Request::ListUserNames));
    assert!(Reply::Names(vec![]).is_answer_to(&Request::ListFriends { user_id: 1 }));
    assert!(Reply::Written.is_answer_to(&Request::OpenSession { user_id: 1 }));
    assert!(!Reply::Exists(true).is_answer_to(&Request::FindUserName { user_id: 1 }));
}

#[test]
fn get_user_found_with_friends() {
    let (state, req) = db_get_user(s("bob"));
    match &req {
        Request::FindUserByName { name } => assert_eq!(name, "bob"),
        _ => panic!("looks the user up by name"),
    }
    let (state, req) = expect_pending(state.resume(Reply::UserRow(5, s("bob"))));
    match req {
        Request::ListFriends { user_id } => assert_eq!(user_id, 5),
        _ => panic!("lists the friends next"),
    }
    let user = expect_finished(state.resume(Reply::Names(names(&["ann", "cid"])))).ok().unwrap();
    assert_eq!(user.id, 5);
    assert_eq!(user.name, "bob");
    assert_eq!(user.friends, names(&["ann", "cid"]));
}

#[test]
fn get_user_missing_is_not_found() {
    let (state, _) = db_get_user(s("ghost"));
    match expect_finished(state.resume(Reply::Failed(s("no rows returned by a query")))) {
        Err(FieldError { message }) => assert_eq!(message, "The requested item was not found"),
        Ok(_) => panic!("missing user"),
    }
}

#[test]
fn get_user_without_friend_list_has_no_friends() {
    let state = GetUser::AwaitFriends { id: 3, name: s("dan") };
    let user: User = expect_finished(state.resume(Reply::Failed(s("timeout")))).ok().unwrap();
    assert_eq!(user.id, 3);
    assert_eq!(user.name, "dan");
    assert!(user.friends.is_empty());
}

#[test]
fn users_with_no_names_is_empty() {
    let (state, req) = Query::users();
    assert!(matches!(req, Request::ListUserNames));
    let listed = expect_finished(state.resume(Reply::Names(vec![]))).ok().unwrap();
    assert!(listed.is_empty());
}

#[test]
fn users_failed_listing_reports_query_error() {
    let (state, _) = Query::users();
    match expect_finished(state.resume(Reply::Failed(s("pool timed out")))) {
        Err(e) => assert_eq!(e.message, "pool timed out"),
        Ok(_) => panic!("listing failed"),
    }
}

#[test]
fn users_lists_each_name_in_order() {
    let (state, _) = Query::users();
    let (state, req) = expect_pending(state.resume(Reply::Names(names(&["ann", "bob"]))));
    match &req {
        Request::FindUserByName { name } => assert_eq!(name, "ann"),
        _ => panic!(),
    }
    let (state, _) = expect_pending(state.resume(Reply::UserRow(1, s("ann"))));
    let (state, req) = expect_pending(state.resume(Reply::Names(names(&["bob"]))));
    match &req {
        Request::FindUserByName { name } => assert_eq!(name, "bob"),
        _ => panic!(),
    }
    let (state, _) = expect_pending(state.resume(Reply::UserRow(2, s("bob"))));
    let listed = expect_finished(state.resume(Reply::Names(vec![]))).ok().unwrap();
    assert_eq!(listed.len(), 2);
    assert_eq!(listed[0].name, "ann");
    assert_eq!(listed[0].friends, names(&["bob"]));
    assert_eq!(listed[1].id, 2);
    assert!(listed[1].friends.is_empty());
}

#[test]
fn users_stops_at_first_missing_user() {
    let (state, _) = Query::users();
    let (state, _) = expect_pending(state.resume(Reply::Names(names(&["ann", "bob"]))));
    match expect_finished(state.resume(Reply::Failed(s("gone")))) {
        Err(e) => assert_eq!(e.message, "The requested item was not found"),
        Ok(_) => panic!(),
    }
    assert!(matches!(Users::AwaitNames, Users::AwaitNames));
}

#[test]
fn user_query_looks_up_by_name() {
    let (state, req) = Query::user(s("zoe"));
    assert!(matches!(state, GetUser::AwaitUser { .. }));
    match req {
        Request::FindUserByName { name } => assert_eq!(name, "zoe"),
        _ => panic!(),
    }
}

#[test]
fn about_me_reads_own_record() {
    let ctx = create_context(9);
    let (state, req) = Query::about_me(&ctx);
    match req {
        Request::FindProfile { user_id } => assert_eq!(user_id, 9),
        _ => panic!(),
    }
    let record = UserRecord { id: 9, name: s("Me"), username: s("me"), password_hash: s("$h"), logged_at: 123 };
    let (state, req) = expect_pending(state.resume(Reply::Profile(record)));
    match req {
        Request::ListFriends { user_id } => assert_eq!(user_id, 9),
        _ => panic!(),
    }
    let me = expect_finished(state.resume(Reply::Names(names(&["you"])))).ok().unwrap();
    assert_eq!(me.id, 9);
    assert_eq!(me.username, "me");
    assert_eq!(me.password_hash, "$h");
    assert_eq!(me.logged_at, 123);
    assert_eq!(me.friends, names(&["you"]));
}

#[test]
fn about_me_failure_reports_query_error() {
    let (state, _) = Query::about_me(&create_context(9));
    match expect_finished(state.resume(Reply::Failed(s("no rows")))) {
        Err(e) => assert_eq!(e.message, "no rows"),
        Ok(_) => panic!(),
    }
}

fn add_friend_to_lookup(name: &str, me: u128, friend_id: u128) -> Step<AddFriend, Result<User, FieldError>> {
    let (state, _) = Mutation::add_friend(s(name), &create_context(me));
    let (state, _) = expect_pending(state.resume(Reply::UserRow(friend_id, s(name))));
    state.resume(Reply::Names(vec![]))
}

#[test]
fn add_friend_success() {
    let (state, req) = expect_pending(add_friend_to_lookup("bob", 1, 2));
    match &req {
        Request::FindFriendship { user_id, friend } => {
            assert_eq!(*user_id, 1);
            assert_eq!(friend, "bob");
        }
        _ => panic!(),
    }
    let (state, req) = expect_pending(state.resume(Reply::Exists(false)));
    match &req {
        Request::InsertFriend { user_id, friend } => {
            assert_eq!(*user_id, 1);
            assert_eq!(friend, "bob");
        }
        _ => panic!(),
    }
    let (state, req) = expect_pending(state.resume(Reply::Written));
    assert!(matches!(req, Request::FindUserName { user_id: 1 }));
    let (state, req) = expect_pending(state.resume(Reply::Name(s("ann"))));
    match &req {
        Request::FindUserByName { name } => assert_eq!(name, "ann"),
        _ => panic!(),
    }
    let (state, _) = expect_pending(state.resume(Reply::UserRow(1, s("ann"))));
    let me = expect_finished(state.resume(Reply::Names(names(&["bob"])))).ok().unwrap();
    assert_eq!(me.id, 1);
    assert_eq!(me.friends, names(&["bob"]));
}

#[test]
fn add_friend_refuses_self() {
    match expect_finished(add_friend_to_lookup("ann", 1, 1)) {
        Err(e) => assert_eq!(e.message, "Invalid field value provided"),
        Ok(_) => panic!(),
    }
}

#[test]
fn add_friend_refuses_existing_friend() {
    let (state, _) = expect_pending(add_friend_to_lookup("bob", 1, 2));
    match expect_finished(state.resume(Reply::Exists(true))) {
        Err(e) => assert_eq!(e.message, "The user already has this friend!"),
        Ok(_) => panic!(),
    }
}

#[test]
fn add_friend_missing_user_is_not_found() {
    let (state, _) = Mutation::add_friend(s("ghost"), &create_context(1));
    match expect_finished(state.resume(Reply::Failed(s("no rows")))) {
        Err(e) => assert_eq!(e.message, "The requested item was not found"),
        Ok(_) => panic!(),
    }
}

#[test]
fn add_friend_failed_insert_reports_query_error() {
    let (state, _) = expect_pending(add_friend_to_lookup("bob", 1, 2));
    let (state, _) = expect_pending(state.resume(Reply::Exists(false)));
    match expect_finished(state.resume(Reply::Failed(s("unique violation")))) {
        Err(e) => assert_eq!(e.message, "unique violation"),
        Ok(_) => panic!(),
    }
}

#[test]
fn delete_friend_success() {
    let (state, _) = Mutation::delete_friend(s("bob"), &create_context(1));
    let (state, _) = expect_pending(state.resume(Reply::UserRow(2, s("bob"))));
    let (state, req) = expect_pending(state.resume(Reply::Names(vec![])));
    assert!(matches!(req, Request::FindFriendship { user_id: 1, .. }));
    let (state, req) = expect_pending(state.resume(Reply::Exists(true)));
    match &req {
        Request::DeleteFriend { user_id, friend } => {
            assert_eq!(*user_id, 1);
            assert_eq!(friend, "bob");
        }
        _ => panic!(),
    }
    let (state, _) = expect_pending(state.resume(Reply::Written));
    let (state, _) = expect_pending(state.resume(Reply::Name(s("ann"))));
    let (state, _) = expect_pending(state.resume(Reply::UserRow(1, s("ann"))));
    let me = expect_finished(state.resume(Reply::Names(vec![]))).ok().unwrap();
    assert_eq!(me.name, "ann");
    assert!(me.friends.is_empty());
}

#[test]
fn delete_friend_refuses_non_friend() {
    let (state, _) = Mutation::delete_friend(s("bob"), &create_context(1));
    let (state, _) = expect_pending(state.resume(Reply::UserRow(2, s("bob"))));
    let (state, _) = expect_pending(state.resume(Reply::Names(vec![])));
    match expect_finished(state.resume(Reply::Exists(false))) {
        Err(e) => assert_eq!(e.message, "Invalid field value provided"),
        Ok(_) => panic!(),
    }
}

#[test]
fn delete_friend_failed_delete_reports_query_error() {
    let state = DeleteFriend::AwaitDelete { user_id: 1, name: s("bob") };
    match expect_finished(state.resume(Reply::Failed(s("lock timeout")))) {
        Err(e) => assert_eq!(e.message, "lock timeout"),
        Ok(_) => panic!(),
    }
}
