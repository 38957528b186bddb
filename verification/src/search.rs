//! The rules of the user search service: who may change the index, what may
//! be searched for, and what each request is answered with.

use crate::http::{
    confirmation_reply, failure_reply, names_reply, Reply, ReplyView, INTERNAL_SERVER_ERROR,
    STATUS_BAD_REQUEST, STATUS_CREATED, STATUS_INTERNAL_SERVER_ERROR, STATUS_OK,
    STATUS_UNAUTHORIZED,
};
use vstd::prelude::*;

verus! {

/// The index that holds the users.
pub const INDEX: &'static str = "gravitalia";

/// The field by which a user is found again in the index.
pub const PRIMARY_KEY: &'static str = "vanity";

/// The field by which the index can sort.
pub const SORTABLE_ATTRIBUTE: &'static str = "flags";

/// The order in which the users that a search finds are returned.
pub const SORT_ORDER: &'static str = "flags:desc";

/// The query that finds every user.
pub const EVERYTHING: &'static str = "*";

/// The limit of a search that names none.
pub const DEFAULT_LIMIT: u8 = 3;

/// The least limit that a search is made with.
pub const LEAST_LIMIT: u8 = 20;

/// The message of the reply to a request with a wrong authorization.
pub const INVALID_TOKEN: &'static str = "Invalid token";

/// The message of the reply to a search for everything.
pub const CANNOT_SEARCH_EVERYTHING: &'static str = "Cannot search '*'";

/// The message of the reply that confirms that a user was indexed.
pub const INDEXED: &'static str = "Indexed";

/// The message of the reply that confirms that a user was deleted.
pub const DELETED: &'static str = "Deleted";

/// A user as the index holds it.
#[derive(Clone, Debug, PartialEq, Eq)]
pub struct User {
    pub vanity: String,
    username: String,
    flags: u16,
}

/// What a [`User`] is to the contracts.
pub struct UserView {
    pub vanity: Seq<char>,
    pub username: Seq<char>,
    pub flags: u16,
}

impl DeepView for User {
    type V = UserView;

    closed spec fn deep_view(&self) -> UserView {
        UserView { vanity: self.vanity@, username: self.username@, flags: self.flags }
    }
}

impl User {
    /// The user called `username` that goes by `vanity` and carries `flags`.
    pub fn new(vanity: String, username: String, flags: u16) -> (user: User)
        ensures
            user.deep_view() == (UserView { vanity: vanity@, username: username@, flags }),
    {
        User { vanity, username, flags }
    }

    /// The name by which the user is found.
    pub fn vanity(&self) -> (vanity: &String)
        ensures
            vanity@ == self.deep_view().vanity,
    {
        &self.vanity
    }

    /// The name that the user shows.
    pub fn username(&self) -> (username: &String)
        ensures
            username@ == self.deep_view().username,
    {
        &self.username
    }

    /// The flags that the user carries.
    pub fn flags(&self) -> (flags: u16)
        ensures
            flags == self.deep_view().flags,
    {
        self.flags
    }
}

/// What a search was asked for.
#[derive(Clone, Debug, PartialEq, Eq)]
pub struct QuerySearch {
    pub q: String,
    pub limit: Option<u8>,
}

/// What a [`QuerySearch`] is to the contracts.
pub struct QuerySearchView {
    pub q: Seq<char>,
    pub limit: Option<u8>,
}

impl DeepView for QuerySearch {
    type V = QuerySearchView;

    open spec fn deep_view(&self) -> QuerySearchView {
        QuerySearchView { q: self.q@, limit: self.limit }
    }
}

/// A search as the index is asked to make it.
#[derive(Clone, Debug, PartialEq, Eq)]
pub struct SearchRequest {
    pub query: String,
    pub sort: Vec<String>,
    pub limit: Option<usize>,
}

/// What a [`SearchRequest`] is to the contracts.
pub struct SearchRequestView {
    pub query: Seq<char>,
    pub sort: Seq<Seq<char>>,
    pub limit: Option<usize>,
}

impl DeepView for SearchRequest {
    type V = SearchRequestView;

    open spec fn deep_view(&self) -> SearchRequestView {
        SearchRequestView { query: self.query@, sort: self.sort.deep_view(), limit: self.limit }
    }
}

/// What a request to the service comes to before the index is touched.
#[derive(Clone, Debug, PartialEq, Eq)]
pub enum Plan {
    /// Give this reply; the index is not touched.
    Reply(Reply),
    /// Put this user into the index, in place of the one with its vanity.
    Index(User),
    /// Take the user with this vanity out of the index.
    Delete(String),
    /// Make this search.
    Search(SearchRequest),
}

/// What a [`Plan`] is to the contracts.
pub enum PlanView {
    Reply(ReplyView),
    Index(UserView),
    Delete(Seq<char>),
    Search(SearchRequestView),
}

impl DeepView for Plan {
    type V = PlanView;

    open spec fn deep_view(&self) -> PlanView {
        match self {
            Plan::Reply(reply) => PlanView::Reply(reply.deep_view()),
            Plan::Index(user) => PlanView::Index(user.deep_view()),
            Plan::Delete(vanity) => PlanView::Delete(vanity@),
            Plan::Search(request) => PlanView::Search(request.deep_view()),
        }
    }
}

/// The reply to a request whose authorization is not the service's secret.
pub open spec fn unauthorized_reply() -> ReplyView {
    failure_reply(STATUS_UNAUTHORIZED, INVALID_TOKEN@)
}

/// The limit that a search is made with: the limit asked for, or
/// `DEFAULT_LIMIT` where none was, and never less than `LEAST_LIMIT`.
pub open spec fn effective_limit(limit: Option<u8>) -> u8 {
    let asked = match limit {
        Some(limit) => limit,
        None => DEFAULT_LIMIT,
    };
    if asked < LEAST_LIMIT {
        LEAST_LIMIT
    } else {
        asked
    }
}

/// The search that finds every user.
pub open spec fn search_for_everything() -> SearchRequestView {
    SearchRequestView { query: EVERYTHING@, sort: Seq::empty(), limit: None }
}

/// The search that `query` asks for: its text, by descending flags, with
/// its effective limit.
pub open spec fn search_for(query: QuerySearchView) -> SearchRequestView {
    SearchRequestView {
        query: query.q,
        sort: seq![SORT_ORDER@],
        limit: Some(effective_limit(query.limit) as usize),
    }
}

/// What a request to index `body` comes to.
pub open spec fn add_plan(body: UserView, authorization: Seq<char>, secret: Seq<char>) -> PlanView {
    if authorization == secret {
        PlanView::Index(body)
    } else {
        PlanView::Reply(unauthorized_reply())
    }
}

/// What a request to delete `body` comes to.
pub open spec fn delete_plan(body: UserView, authorization: Seq<char>, secret: Seq<char>) -> PlanView {
    if authorization == secret {
        PlanView::Delete(body.vanity)
    } else {
        PlanView::Reply(unauthorized_reply())
    }
}

/// What a request for every user comes to.
pub open spec fn users_plan(authorization: Seq<char>, secret: Seq<char>) -> PlanView {
    if authorization == secret {
        PlanView::Search(search_for_everything())
    } else {
        PlanView::Reply(unauthorized_reply())
    }
}

/// What a search comes to. A search for everything is refused.
pub open spec fn research_plan(query: QuerySearchView) -> PlanView {
    if query.q == EVERYTHING@ {
        PlanView::Reply(failure_reply(STATUS_BAD_REQUEST, CANNOT_SEARCH_EVERYTHING@))
    } else {
        PlanView::Search(search_for(query))
    }
}

/// The vanities of `users`, in their order.
pub open spec fn vanities_of(users: Seq<UserView>) -> Seq<Seq<char>> {
    Seq::new(users.len(), |i: int| users[i].vanity)
}

/// A search is never made with a limit under `LEAST_LIMIT`, and a limit
/// that is asked for and is no less than that is kept.
pub proof fn lemma_effective_limit(limit: Option<u8>)
    ensures
        effective_limit(limit) >= LEAST_LIMIT,
        limit is Some && limit->0 >= LEAST_LIMIT ==> effective_limit(limit) == limit->0,
        limit is None ==> effective_limit(limit) == LEAST_LIMIT,
{
}

/// The limit that a search is made with.
pub fn search_limit(limit: Option<u8>) -> (effective: u8)
    ensures
        effective == effective_limit(limit),
{
    let asked: u8 = match limit {
        Some(limit) => limit,
        None => DEFAULT_LIMIT,
    };
    if asked < LEAST_LIMIT {
        LEAST_LIMIT
    } else {
        asked
    }
}

/// The reply to a request whose authorization is not the service's secret.
fn unauthorized() -> (reply: Reply)
    ensures
        reply.deep_view() == unauthorized_reply(),
{
    Reply::failure(STATUS_UNAUTHORIZED, INVALID_TOKEN)
}

/// What a request to index `body` comes to: the user is indexed where the
/// authorization is the service's secret, else the request is refused.
pub fn plan_add(body: User, authorization: &String, secret: &String) -> (plan: Plan)
    ensures
        plan.deep_view() == add_plan(body.deep_view(), authorization@, secret@),
{
    if *authorization == *secret {
        Plan::Index(body)
    } else {
        Plan::Reply(unauthorized())
    }
}

/// What a request to delete `body` comes to: the user with its vanity is
/// deleted where the authorization is the service's secret, else the
/// request is refused.
pub fn plan_delete(body: User, authorization: &String, secret: &String) -> (plan: Plan)
    ensures
        plan.deep_view() == delete_plan(body.deep_view(), authorization@, secret@),
{
    if *authorization == *secret {
        Plan::Delete(body.vanity().clone())
    } else {
        Plan::Reply(unauthorized())
    }
}

/// What a request for every user comes to: a search for everything where
/// the authorization is the service's secret, else the request is refused.
pub fn plan_users(authorization: &String, secret: &String) -> (plan: Plan)
    ensures
        plan.deep_view() == users_plan(authorization@, secret@),
{
    if *authorization == *secret {
        let sort: Vec<String> = Vec::new();
        assert(sort.deep_view() =~= Seq::empty());
        Plan::Search(SearchRequest { query: EVERYTHING.to_owned(), sort, limit: None })
    } else {
        Plan::Reply(unauthorized())
    }
}

/// What a search comes to: the search itself, or a refusal where it asks
/// for everything.
pub fn plan_research(query: QuerySearch) -> (plan: Plan)
    ensures
        plan.deep_view() == research_plan(query.deep_view()),
{
    if query.q == EVERYTHING.to_owned() {
        Plan::Reply(Reply::failure(STATUS_BAD_REQUEST, CANNOT_SEARCH_EVERYTHING))
    } else {
        let mut sort: Vec<String> = Vec::new();
        sort.push(SORT_ORDER.to_owned());
        assert(sort.deep_view() =~= seq![SORT_ORDER@]);
        let limit: usize = search_limit(query.limit) as usize;
        Plan::Search(SearchRequest { query: query.q, sort, limit: Some(limit) })
    }
}

/// The vanities of `users`, in their order.
pub fn vanities(users: &Vec<User>) -> (names: Vec<String>)
    ensures
        names.deep_view() == vanities_of(users.deep_view()),
{
    let mut names: Vec<String> = Vec::new();
    let mut i: usize = 0;
    while i < users.len()
        invariant
            i <= users.len(),
            names.len() == i,
            forall|k: int| 0 <= k < i ==> (#[trigger] names[k])@ == users[k].deep_view().vanity,
        decreases users.len() - i,
    {
        names.push(users[i].vanity().clone());
        i = i + 1;
    }
    assert(names.deep_view() =~= vanities_of(users.deep_view()));
    names
}

/// The reply to a request that the index failed on.
pub open spec fn index_failure_reply() -> ReplyView {
    failure_reply(STATUS_INTERNAL_SERVER_ERROR, INTERNAL_SERVER_ERROR@)
}

/// The reply to a request that the index failed on.
fn index_failure() -> (reply: Reply)
    ensures
        reply.deep_view() == index_failure_reply(),
{
    Reply::failure(STATUS_INTERNAL_SERVER_ERROR, INTERNAL_SERVER_ERROR)
}

/// The reply to a search, given the users that it found where the index
/// answered: their vanities, or a failure of the service.
pub fn reply_to_search(found: Option<&Vec<User>>) -> (reply: Reply)
    ensures
        reply.deep_view() == (match found {
            Some(users) => names_reply(vanities_of(users.deep_view())),
            None => index_failure_reply(),
        }),
{
    match found {
        Some(users) => Reply::names(vanities(users)),
        None => index_failure(),
    }
}

/// The reply to a request to index a user that was let through: a
/// confirmation where the index took the user, else a failure of the service.
pub fn reply_to_indexing(succeeded: bool) -> (reply: Reply)
    ensures
        reply.deep_view() == (if succeeded {
            confirmation_reply(STATUS_CREATED, INDEXED@)
        } else {
            index_failure_reply()
        }),
{
    if succeeded {
        Reply::confirmation(STATUS_CREATED, INDEXED)
    } else {
        index_failure()
    }
}

/// The reply to a request to delete a user that was let through: a
/// confirmation, whether the index deleted anything or failed.
pub fn reply_to_deletion(succeeded: bool) -> (reply: Reply)
    ensures
        reply.deep_view() == confirmation_reply(STATUS_OK, DELETED@),
{
    Reply::confirmation(STATUS_OK, DELETED)
}

} // verus!
