use recommendation::http::{handle_rejection, Body, Rejection, Reply};
use recommendation::model::{Error, Post};

fn rejection() -> Rejection {
    Rejection { not_found: false, invalid_body: false, body_cause: None, method_not_allowed: false }
}

fn failure(status: u16, message: &str) -> Reply {
    Reply { status, body: Body::Report(Error { error: true, message: message.to_string() }) }
}

#[test]
fn an_unknown_path_is_not_found() {
    let reply = handle_rejection(&Rejection { not_found: true, ..rejection() });
    assert_eq!(reply, failure(404, "Not found"));
}

#[test]
fn an_unknown_path_comes_before_everything_else() {
    let reply = handle_rejection(&Rejection {
        not_found: true,
        invalid_body: true,
        body_cause: Some("missing field `vanity`".to_string()),
        method_not_allowed: true,
    });
    assert_eq!(reply, failure(404, "Not found"));
}

#[test]
fn an_unreadable_body_is_reported_with_its_cause() {
    let reply = handle_rejection(&Rejection {
        invalid_body: true,
        body_cause: Some("missing field `vanity`".to_string()),
        ..rejection()
    });
    assert_eq!(reply, failure(400, "missing field `vanity`"));
}

#[test]
fn an_unreadable_body_without_a_known_cause_is_an_invalid_body() {
    let reply = handle_rejection(&Rejection { invalid_body: true, ..rejection() });
    assert_eq!(reply, failure(400, "Invalid body"));
}

#[test]
fn an_unreadable_body_comes_before_the_method() {
    let reply = handle_rejection(&Rejection {
        invalid_body: true,
        method_not_allowed: true,
        ..rejection()
    });
    assert_eq!(reply, failure(400, "Invalid body"));
}

#[test]
fn a_cause_without_an_unreadable_body_is_not_reported() {
    let reply =
        handle_rejection(&Rejection { body_cause: Some("cause".to_string()), ..rejection() });
    assert_eq!(reply, failure(500, "Internal server error"));
}

#[test]
fn a_method_that_is_not_served_is_not_allowed() {
    let reply = handle_rejection(&Rejection { method_not_allowed: true, ..rejection() });
    assert_eq!(reply, failure(405, "Method not allowed"));
}

#[test]
fn any_other_rejection_is_a_failure_of_the_service() {
    assert_eq!(handle_rejection(&rejection()), failure(500, "Internal server error"));
}

#[test]
fn the_replies_carry_what_they_are_made_of() {
    assert_eq!(Reply::failure(400, "no"), failure(400, "no"));
    assert_eq!(
        Reply::confirmation(201, "yes"),
        Reply { status: 201, body: Body::Report(Error { error: false, message: "yes".to_string() }) }
    );
    let post = Post {
        id: "p1".to_string(),
        description: "d".to_string(),
        author: "a".to_string(),
        hash: vec!["h1".to_string(), "h2".to_string()],
        like: 2,
    };
    assert_eq!(
        Reply::posts(vec![post.clone()]),
        Reply { status: 200, body: Body::Posts(vec![post]) }
    );
    assert_eq!(
        Reply::names(vec!["n".to_string()]),
        Reply { status: 200, body: Body::Names(vec!["n".to_string()]) }
    );
}
