//! Replies as the services give them to the HTTP layer: a status code and a
//! body, and the reply that a rejected request gets.

use crate::model::{Error, ErrorView, Post, PostView};
use vstd::prelude::*;

verus! {

/// The request succeeded.
pub const STATUS_OK: u16 = 200;

/// The request succeeded and something was created.
pub const STATUS_CREATED: u16 = 201;

/// The request cannot be served as it was made.
pub const STATUS_BAD_REQUEST: u16 = 400;

/// The request lacks a valid authorization.
pub const STATUS_UNAUTHORIZED: u16 = 401;

/// Nothing is served at the requested path.
pub const STATUS_NOT_FOUND: u16 = 404;

/// The path is not served for the requested method.
pub const STATUS_METHOD_NOT_ALLOWED: u16 = 405;

/// The service failed.
pub const STATUS_INTERNAL_SERVER_ERROR: u16 = 500;

/// The message of a reply to a request for an unknown path.
pub const NOT_FOUND: &'static str = "Not found";

/// The message of a reply to a request whose body could not be read, where
/// no cause is known.
pub const INVALID_BODY: &'static str = "Invalid body";

/// The message of a reply to a request with a method that is not served.
pub const METHOD_NOT_ALLOWED: &'static str = "Method not allowed";

/// The message of a reply to a request that the service failed on.
pub const INTERNAL_SERVER_ERROR: &'static str = "Internal server error";

/// The body of a reply.
#[derive(Clone, Debug, PartialEq, Eq)]
pub enum Body {
    Posts(Vec<Post>),
    Names(Vec<String>),
    Report(Error),
}

/// What a [`Body`] is to the contracts.
pub enum BodyView {
    Posts(Seq<PostView>),
    Names(Seq<Seq<char>>),
    Report(ErrorView),
}

impl DeepView for Body {
    type V = BodyView;

    open spec fn deep_view(&self) -> BodyView {
        match self {
            Body::Posts(posts) => BodyView::Posts(posts.deep_view()),
            Body::Names(names) => BodyView::Names(names.deep_view()),
            Body::Report(report) => BodyView::Report(report.deep_view()),
        }
    }
}

/// A reply: its status code and its body.
#[derive(Clone, Debug, PartialEq, Eq)]
pub struct Reply {
    pub status: u16,
    pub body: Body,
}

/// What a [`Reply`] is to the contracts.
pub struct ReplyView {
    pub status: u16,
    pub body: BodyView,
}

impl DeepView for Reply {
    type V = ReplyView;

    open spec fn deep_view(&self) -> ReplyView {
        ReplyView { status: self.status, body: self.body.deep_view() }
    }
}

/// What the HTTP layer found of a request that it rejected.
#[derive(Clone, Debug, PartialEq, Eq)]
pub struct Rejection {
    /// No route matched the path.
    pub not_found: bool,
    /// The body could not be read as what the route expects.
    pub invalid_body: bool,
    /// Why the body could not be read, where that is known.
    pub body_cause: Option<String>,
    /// A route matched the path, but not with this method.
    pub method_not_allowed: bool,
}

/// What a [`Rejection`] is to the contracts.
pub struct RejectionView {
    pub not_found: bool,
    pub invalid_body: bool,
    pub body_cause: Option<Seq<char>>,
    pub method_not_allowed: bool,
}

impl DeepView for Rejection {
    type V = RejectionView;

    open spec fn deep_view(&self) -> RejectionView {
        RejectionView {
            not_found: self.not_found,
            invalid_body: self.invalid_body,
            body_cause: self.body_cause.deep_view(),
            method_not_allowed: self.method_not_allowed,
        }
    }
}

/// The reply that reports a failure with `message` under `status`.
pub open spec fn failure_reply(status: u16, message: Seq<char>) -> ReplyView {
    ReplyView { status, body: BodyView::Report(ErrorView { error: true, message }) }
}

/// The reply that confirms with `message` under `status`.
pub open spec fn confirmation_reply(status: u16, message: Seq<char>) -> ReplyView {
    ReplyView { status, body: BodyView::Report(ErrorView { error: false, message }) }
}

/// The reply that hands out `posts`.
pub open spec fn posts_reply(posts: Seq<PostView>) -> ReplyView {
    ReplyView { status: STATUS_OK, body: BodyView::Posts(posts) }
}

/// The reply that hands out `names`.
pub open spec fn names_reply(names: Seq<Seq<char>>) -> ReplyView {
    ReplyView { status: STATUS_OK, body: BodyView::Names(names) }
}

/// The reply to a rejected request. An unknown path comes first, then a
/// body that could not be read, then a method that is not served; anything
/// else is a failure of the service.
pub open spec fn rejection_reply(rejection: RejectionView) -> ReplyView {
    if rejection.not_found {
        failure_reply(STATUS_NOT_FOUND, NOT_FOUND@)
    } else if rejection.invalid_body {
        match rejection.body_cause {
            Some(cause) => failure_reply(STATUS_BAD_REQUEST, cause),
            None => failure_reply(STATUS_BAD_REQUEST, INVALID_BODY@),
        }
    } else if rejection.method_not_allowed {
        failure_reply(STATUS_METHOD_NOT_ALLOWED, METHOD_NOT_ALLOWED@)
    } else {
        failure_reply(STATUS_INTERNAL_SERVER_ERROR, INTERNAL_SERVER_ERROR@)
    }
}

impl Reply {
    /// The reply that reports a failure with `message` under `status`.
    pub fn failure(status: u16, message: &str) -> (reply: Reply)
        ensures
            reply.deep_view() == failure_reply(status, message@),
    {
        Reply { status, body: Body::Report(Error::failure(message)) }
    }

    /// The reply that confirms with `message` under `status`.
    pub fn confirmation(status: u16, message: &str) -> (reply: Reply)
        ensures
            reply.deep_view() == confirmation_reply(status, message@),
    {
        Reply { status, body: Body::Report(Error::confirmation(message)) }
    }

    /// The reply that hands out `posts`.
    pub fn posts(posts: Vec<Post>) -> (reply: Reply)
        ensures
            reply.deep_view() == posts_reply(posts.deep_view()),
    {
        Reply { status: STATUS_OK, body: Body::Posts(posts) }
    }

    /// The reply that hands out `names`.
    pub fn names(names: Vec<String>) -> (reply: Reply)
        ensures
            reply.deep_view() == names_reply(names.deep_view()),
    {
        Reply { status: STATUS_OK, body: Body::Names(names) }
    }
}

/// The reply to a request that the HTTP layer rejected.
pub fn handle_rejection(rejection: &Rejection) -> (reply: Reply)
    ensures
        reply.deep_view() == rejection_reply(rejection.deep_view()),
{
    if rejection.not_found {
        Reply::failure(STATUS_NOT_FOUND, NOT_FOUND)
    } else if rejection.invalid_body {
        match &rejection.body_cause {
            Some(cause) => Reply::failure(STATUS_BAD_REQUEST, cause.as_str()),
            None => Reply::failure(STATUS_BAD_REQUEST, INVALID_BODY),
        }
    } else if rejection.method_not_allowed {
        Reply::failure(STATUS_METHOD_NOT_ALLOWED, METHOD_NOT_ALLOWED)
    } else {
        Reply::failure(STATUS_INTERNAL_SERVER_ERROR, INTERNAL_SERVER_ERROR)
    }
}

} // verus!
