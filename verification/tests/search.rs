use recommendation::http::{Body, Reply};
use recommendation::model::Error;
use recommendation::search::{
    plan_add, plan_delete, plan_research, plan_users, reply_to_deletion, reply_to_indexing,
    reply_to_search, search_limit, vanities, Plan, QuerySearch, SearchRequest, User,
    DEFAULT_LIMIT, INDEX, LEAST_LIMIT, PRIMARY_KEY, SORTABLE_ATTRIBUTE,
};

fn user(vanity: &str) -> User {
    User::new(vanity.to_string(), format!("{} the user", vanity), 3)
}

fn refusal() -> Plan {
    Plan::Reply(Reply {
        status: 401,
        body: Body::Report(Error { error: true, message: "Invalid token".to_string() }),
    })
}

#[test]
fn a_user_is_indexed_for_the_right_authorization() {
    let plan = plan_add(user("alice"), &"secret".to_string(), &"secret".to_string());
    assert_eq!(plan, Plan::Index(user("alice")));
}

#[test]
fn a_user_is_not_indexed_for_a_wrong_authorization() {
    assert_eq!(plan_add(user("alice"), &"guess".to_string(), &"secret".to_string()), refusal());
    assert_eq!(plan_add(user("alice"), &"".to_string(), &"secret".to_string()), refusal());
    assert_eq!(plan_add(user("alice"), &"secret ".to_string(), &"secret".to_string()), refusal());
}

#[test]
fn a_user_is_deleted_by_vanity_for_the_right_authorization() {
    let plan = plan_delete(user("alice"), &"secret".to_string(), &"secret".to_string());
    assert_eq!(plan, Plan::Delete("alice".to_string()));
    assert_eq!(plan_delete(user("alice"), &"guess".to_string(), &"secret".to_string()), refusal());
}

#[test]
fn every_user_is_listed_for_the_right_authorization() {
    let plan = plan_users(&"secret".to_string(), &"secret".to_string());
    assert_eq!(
        plan,
        Plan::Search(SearchRequest { query: "*".to_string(), sort: Vec::new(), limit: None })
    );
    assert_eq!(plan_users(&"guess".to_string(), &"secret".to_string()), refusal());
}

#[test]
fn a_search_for_everything_is_refused() {
    let plan = plan_research(QuerySearch { q: "*".to_string(), limit: Some(5) });
    assert_eq!(
        plan,
        Plan::Reply(Reply {
            status: 400,
            body: Body::Report(Error { error: true, message: "Cannot search '*'".to_string() }),
        })
    );
}

#[test]
fn a_search_is_made_by_descending_flags() {
    let plan = plan_research(QuerySearch { q: "ali".to_string(), limit: Some(50) });
    assert_eq!(
        plan,
        Plan::Search(SearchRequest {
            query: "ali".to_string(),
            sort: vec!["flags:desc".to_string()],
            limit: Some(50),
        })
    );
    let starred = plan_research(QuerySearch { q: "**".to_string(), limit: None });
    assert_eq!(
        starred,
        Plan::Search(SearchRequest {
            query: "**".to_string(),
            sort: vec!["flags:desc".to_string()],
            limit: Some(20),
        })
    );
}

#[test]
fn a_search_is_never_made_with_a_limit_under_twenty() {
    assert_eq!(DEFAULT_LIMIT, 3);
    assert_eq!(LEAST_LIMIT, 20);
    assert_eq!(search_limit(None), 20);
    assert_eq!(search_limit(Some(0)), 20);
    assert_eq!(search_limit(Some(3)), 20);
    assert_eq!(search_limit(Some(19)), 20);
    assert_eq!(search_limit(Some(20)), 20);
    assert_eq!(search_limit(Some(21)), 21);
    assert_eq!(search_limit(Some(255)), 255);
}

#[test]
fn the_users_that_a_search_found_are_given_by_vanity() {
    let users = vec![user("carol"), user("alice"), user("bob")];
    assert_eq!(
        vanities(&users),
        vec!["carol".to_string(), "alice".to_string(), "bob".to_string()]
    );
    let reply = reply_to_search(Some(&users));
    assert_eq!(reply.status, 200);
    assert_eq!(
        reply.body,
        Body::Names(vec!["carol".to_string(), "alice".to_string(), "bob".to_string()])
    );
    assert_eq!(reply_to_search(Some(&Vec::new())).body, Body::Names(Vec::new()));
}

fn service_failure() -> Reply {
    Reply {
        status: 500,
        body: Body::Report(Error { error: true, message: "Internal server error".to_string() }),
    }
}

#[test]
fn a_search_that_the_index_failed_on_is_a_failure_of_the_service() {
    assert_eq!(reply_to_search(None), service_failure());
}

#[test]
fn a_user_that_the_index_did_not_take_is_a_failure_of_the_service() {
    assert_eq!(reply_to_indexing(false), service_failure());
}

#[test]
fn a_deletion_is_confirmed_though_the_index_failed() {
    assert_eq!(reply_to_deletion(false), reply_to_deletion(true));
}

#[test]
fn the_confirmations_are_no_errors() {
    let indexed = reply_to_indexing(true);
    assert_eq!(indexed.status, 201);
    assert_eq!(
        indexed.body,
        Body::Report(Error { error: false, message: "Indexed".to_string() })
    );
    let deleted = reply_to_deletion(true);
    assert_eq!(deleted.status, 200);
    assert_eq!(
        deleted.body,
        Body::Report(Error { error: false, message: "Deleted".to_string() })
    );
}

#[test]
fn a_user_keeps_what_it_was_made_with() {
    let user = User::new("alice".to_string(), "Alice".to_string(), 513);
    assert_eq!(user.vanity(), "alice");
    assert_eq!(user.vanity, "alice");
    assert_eq!(user.username(), "Alice");
    assert_eq!(user.flags(), 513);
}

#[test]
fn the_index_is_the_one_of_the_users() {
    assert_eq!(INDEX, "gravitalia");
    assert_eq!(PRIMARY_KEY, "vanity");
    assert_eq!(SORTABLE_ATTRIBUTE, "flags");
}
