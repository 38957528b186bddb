//! The feed service: one request's way from the verified identity through
//! fetching, aggregating and ranking to the reply.
//!
//! The service decides and its caller acts. [`action`] says what a state
//! waits for; the caller does it and hands what came of it to [`advance`].

use crate::candidates::{
    candidate_id, candidate_set, candidate_sets, feed_sources, fetch_report, fetch_requests,
    fixed_sources, lemma_first_failure, lemma_undecoded_row_fails_the_source, outcome_at,
    requests_for, settle, source_failed,
};
use crate::deduplicator::{aggregate, aggregated, lemma_aggregated_elements};
use crate::gateway::{Outcome, OutcomeView, Request, RequestView};
use crate::http::{
    failure_reply, posts_reply, Reply, ReplyView, INTERNAL_SERVER_ERROR, STATUS_BAD_REQUEST,
    STATUS_INTERNAL_SERVER_ERROR,
};
use crate::model::{copy_posts, Claims, ClaimsView, Post, PostView};
use crate::row::RowView;
use crate::ranking::{
    assemble_feed, lemma_ranked_feed_is_bounded, ranked_feed, ranking_request, TOP_K,
};
use vstd::prelude::*;

verus! {

/// The message of the reply to a request without a valid identity.
pub const INVALID_TOKEN: &'static str = "Invalid token";

/// The message of the reply when the source by the last liked topic failed.
pub const CANNOT_GET_LATEST_LIKED_POSTS: &'static str = "Cannot get latest liked posts";

/// The message of the reply when the source by followed authors failed.
pub const CANNOT_GET_LATEST_FOLLOWING_POSTS: &'static str = "Cannot get latest following posts";

/// The message of the reply when the source by community affinity failed.
pub const CANNOT_GET_LATEST_COMMUNITY_POSTS: &'static str = "Cannot get latest community posts";

/// Why a request for a feed failed.
#[derive(Clone, Copy, PartialEq, Eq, Structural, Debug)]
pub enum Failure {
    /// The request came without a valid identity.
    InvalidIdentity,
    /// The source by the last liked topic failed.
    LikedSource,
    /// The source by followed authors failed.
    FollowingSource,
    /// The source by community affinity failed.
    CommunitySource,
    /// The ranking failed.
    Ranking,
}

/// Where a request for a feed stands.
#[derive(Clone, Debug, PartialEq, Eq)]
pub enum FeedState {
    /// The candidates of `identity` are being fetched from the sources.
    Fetching { identity: String },
    /// Every source has answered with its set; the sets await aggregation.
    Aggregating { identity: String, sets: Vec<Vec<String>> },
    /// The aggregate is being ranked.
    Ranking { identity: String, candidates: Vec<String> },
    /// The feed is made.
    Done { feed: Vec<Post> },
    /// The request failed.
    Errored { failure: Failure },
}

/// What a [`FeedState`] is to the contracts.
pub enum FeedStateView {
    Fetching { identity: Seq<char> },
    Aggregating { identity: Seq<char>, sets: Seq<Seq<Seq<char>>> },
    Ranking { identity: Seq<char>, candidates: Seq<Seq<char>> },
    Done { feed: Seq<PostView> },
    Errored { failure: Failure },
}

impl DeepView for FeedState {
    type V = FeedStateView;

    open spec fn deep_view(&self) -> FeedStateView {
        match self {
            FeedState::Fetching { identity } => FeedStateView::Fetching { identity: identity@ },
            FeedState::Aggregating { identity, sets } => FeedStateView::Aggregating {
                identity: identity@,
                sets: sets.deep_view(),
            },
            FeedState::Ranking { identity, candidates } => FeedStateView::Ranking {
                identity: identity@,
                candidates: candidates.deep_view(),
            },
            FeedState::Done { feed } => FeedStateView::Done { feed: feed.deep_view() },
            FeedState::Errored { failure } => FeedStateView::Errored { failure: *failure },
        }
    }
}

/// What the caller reports back to the service.
#[derive(Clone, Debug, PartialEq, Eq)]
pub enum FeedEvent {
    /// The requests to the sources have ended, each as given, in the order
    /// of the requests.
    Fetched(Vec<Outcome>),
    /// The caller is ready to go on; nothing was asked of it.
    Continued,
    /// The ranking request has ended as given.
    Ranked(Outcome),
}

/// What a [`FeedEvent`] is to the contracts.
pub enum FeedEventView {
    Fetched(Seq<OutcomeView>),
    Continued,
    Ranked(OutcomeView),
}

impl DeepView for FeedEvent {
    type V = FeedEventView;

    open spec fn deep_view(&self) -> FeedEventView {
        match self {
            FeedEvent::Fetched(outcomes) => FeedEventView::Fetched(outcomes.deep_view()),
            FeedEvent::Continued => FeedEventView::Continued,
            FeedEvent::Ranked(outcome) => FeedEventView::Ranked(outcome.deep_view()),
        }
    }
}

/// What the service asks of its caller.
#[derive(Clone, Debug, PartialEq, Eq)]
pub enum FeedAction {
    /// Execute these requests, all at once, and report every outcome.
    Fetch(Vec<Request>),
    /// Nothing to do outside; report that the service may go on.
    Continue,
    /// Execute this request and report its outcome.
    Rank(Request),
    /// Give this reply; the request is over.
    Reply(Reply),
}

/// What a [`FeedAction`] is to the contracts.
pub enum FeedActionView {
    Fetch(Seq<RequestView>),
    Continue,
    Rank(RequestView),
    Reply(ReplyView),
}

impl DeepView for FeedAction {
    type V = FeedActionView;

    open spec fn deep_view(&self) -> FeedActionView {
        match self {
            FeedAction::Fetch(requests) => FeedActionView::Fetch(requests.deep_view()),
            FeedAction::Continue => FeedActionView::Continue,
            FeedAction::Rank(request) => FeedActionView::Rank(request.deep_view()),
            FeedAction::Reply(reply) => FeedActionView::Reply(reply.deep_view()),
        }
    }
}

/// What there is to note of `state`: the failure of a source, by the
/// message of its reply.
pub open spec fn notice_of(state: FeedStateView) -> Option<Seq<char>> {
    match state {
        FeedStateView::Errored { failure } => match failure {
            Failure::LikedSource => Some(CANNOT_GET_LATEST_LIKED_POSTS@),
            Failure::FollowingSource => Some(CANNOT_GET_LATEST_FOLLOWING_POSTS@),
            Failure::CommunitySource => Some(CANNOT_GET_LATEST_COMMUNITY_POSTS@),
            _ => None,
        },
        _ => None,
    }
}

/// The failure that the failure of the source at `index` is to the caller.
pub open spec fn source_failure(index: int) -> Failure {
    if index == 0 {
        Failure::LikedSource
    } else if index == 1 {
        Failure::FollowingSource
    } else {
        Failure::CommunitySource
    }
}

/// The reply that a failure gets.
pub open spec fn reply_to_failure(failure: Failure) -> ReplyView {
    match failure {
        Failure::InvalidIdentity => failure_reply(STATUS_BAD_REQUEST, INVALID_TOKEN@),
        Failure::LikedSource => failure_reply(STATUS_BAD_REQUEST, CANNOT_GET_LATEST_LIKED_POSTS@),
        Failure::FollowingSource => failure_reply(
            STATUS_BAD_REQUEST,
            CANNOT_GET_LATEST_FOLLOWING_POSTS@,
        ),
        Failure::CommunitySource => failure_reply(
            STATUS_BAD_REQUEST,
            CANNOT_GET_LATEST_COMMUNITY_POSTS@,
        ),
        Failure::Ranking => failure_reply(STATUS_INTERNAL_SERVER_ERROR, INTERNAL_SERVER_ERROR@),
    }
}

/// The state in which a request starts: fetching for the subject of the
/// verified claims, or failed where there are none or they name nobody.
pub open spec fn initial_state(verified: Option<ClaimsView>) -> FeedStateView {
    match verified {
        Some(claims) => if claims.sub.len() > 0 {
            FeedStateView::Fetching { identity: claims.sub }
        } else {
            FeedStateView::Errored { failure: Failure::InvalidIdentity }
        },
        None => FeedStateView::Errored { failure: Failure::InvalidIdentity },
    }
}

/// The state that follows `state` on `event`.
///
/// Fetching ends in aggregating, or in the failure of the first source that
/// failed. Aggregating ends in ranking, or in an empty feed where there is
/// no candidate. Ranking ends in the feed or in failure. An event that the
/// state does not wait for changes nothing.
pub open spec fn next_state(state: FeedStateView, event: FeedEventView) -> FeedStateView {
    match (state, event) {
        (FeedStateView::Fetching { identity }, FeedEventView::Fetched(outcomes)) => {
            let report = fetch_report(feed_sources(), outcomes);
            if report.failures.len() > 0 {
                FeedStateView::Errored { failure: source_failure(report.failures[0].index) }
            } else {
                FeedStateView::Aggregating { identity, sets: report.sets }
            }
        },
        (FeedStateView::Aggregating { identity, sets }, FeedEventView::Continued) => {
            if aggregated(sets).len() == 0 {
                FeedStateView::Done { feed: Seq::empty() }
            } else {
                FeedStateView::Ranking { identity, candidates: aggregated(sets) }
            }
        },
        (FeedStateView::Ranking { identity, candidates }, FeedEventView::Ranked(outcome)) => {
            match outcome {
                OutcomeView::Rows(rows) => FeedStateView::Done { feed: ranked_feed(rows) },
                OutcomeView::Failed => FeedStateView::Errored { failure: Failure::Ranking },
            }
        },
        _ => state,
    }
}

/// What `state` asks of the caller.
pub open spec fn action_of(state: FeedStateView) -> FeedActionView {
    match state {
        FeedStateView::Fetching { identity } => FeedActionView::Fetch(
            fetch_requests(identity, feed_sources()),
        ),
        FeedStateView::Aggregating { .. } => FeedActionView::Continue,
        FeedStateView::Ranking { identity, candidates } => FeedActionView::Rank(
            ranking_request(identity, candidates),
        ),
        FeedStateView::Done { feed } => FeedActionView::Reply(posts_reply(feed)),
        FeedStateView::Errored { failure } => FeedActionView::Reply(reply_to_failure(failure)),
    }
}

impl FeedStateView {
    /// What holds of every state that a request passes through: it works
    /// for somebody, it ranks only an aggregate that holds a candidate and
    /// none twice, and a feed is never longer than `TOP_K`.
    pub open spec fn well_formed(self) -> bool {
        match self {
            FeedStateView::Fetching { identity } => identity.len() > 0,
            FeedStateView::Aggregating { identity, sets } => identity.len() > 0,
            FeedStateView::Ranking { identity, candidates } => {
                &&& identity.len() > 0
                &&& candidates.len() > 0
                &&& candidates.no_duplicates()
            },
            FeedStateView::Done { feed } => feed.len() <= TOP_K,
            FeedStateView::Errored { failure } => true,
        }
    }

    /// The request is over: the state asks for a reply and for nothing else.
    pub open spec fn is_final(self) -> bool {
        self is Done || self is Errored
    }
}

/// A request without valid claims, or with claims that name nobody, fails
/// at once: all that is asked of the caller is to give the reply.
pub proof fn lemma_invalid_identity_fails_fast(verified: Option<ClaimsView>)
    requires
        verified is None || verified->0.sub.len() == 0,
    ensures
        initial_state(verified) == (FeedStateView::Errored { failure: Failure::InvalidIdentity }),
        action_of(initial_state(verified)) == FeedActionView::Reply(
            failure_reply(STATUS_BAD_REQUEST, INVALID_TOKEN@),
        ),
{
}

/// A request starts in a well formed state.
pub proof fn lemma_initial_state_is_well_formed(verified: Option<ClaimsView>)
    ensures
        initial_state(verified).well_formed(),
{
}

/// Whatever happens, a well formed state is followed by a well formed one.
pub proof fn lemma_next_state_is_well_formed(state: FeedStateView, event: FeedEventView)
    requires
        state.well_formed(),
    ensures
        next_state(state, event).well_formed(),
{
    match (state, event) {
        (FeedStateView::Aggregating { identity, sets }, FeedEventView::Continued) => {
            lemma_aggregated_elements(sets);
        },
        (FeedStateView::Ranking { identity, candidates }, FeedEventView::Ranked(outcome)) => {
            match outcome {
                OutcomeView::Rows(rows) => {
                    lemma_ranked_feed_is_bounded(rows);
                },
                OutcomeView::Failed => {},
            }
        },
        _ => {},
    }
}

/// A request that is over stays as it is, whatever is reported.
pub proof fn lemma_final_states_absorb(state: FeedStateView, event: FeedEventView)
    requires
        state.is_final(),
    ensures
        next_state(state, event) == state,
{
}

/// The ranking is asked for only in the ranking state, and in a well formed
/// state never for an empty aggregate.
pub proof fn lemma_ranking_needs_candidates(state: FeedStateView)
    requires
        state.well_formed(),
        action_of(state) is Rank,
    ensures
        state is Ranking,
        state->candidates.len() > 0,
        action_of(state)->Rank_0 == ranking_request(state->Ranking_identity, state->candidates),
{
}

/// A source with a row that cannot be decoded fails the request with the
/// error of that source, where no source before it failed; the rows that it
/// could have decoded are not aggregated.
pub proof fn lemma_undecoded_row_fails_the_request(
    identity: Seq<char>,
    outcomes: Seq<OutcomeView>,
    source: int,
    rows: Seq<RowView>,
    at: int,
)
    requires
        0 <= source < feed_sources().len(),
        outcome_at(outcomes, source) == OutcomeView::Rows(rows),
        0 <= at < rows.len(),
        candidate_id(rows[at]) is None,
        forall|i: int| 0 <= i < source ==> !source_failed(#[trigger] outcome_at(outcomes, i)),
    ensures
        next_state(FeedStateView::Fetching { identity }, FeedEventView::Fetched(outcomes)) == (
        FeedStateView::Errored { failure: source_failure(source) }),
        candidate_set(outcome_at(outcomes, source)) == Seq::<Seq<char>>::empty(),
{
    let sources = feed_sources();
    lemma_first_failure(sources, outcomes);
    lemma_undecoded_row_fails_the_source(rows, at);
    let failures = fetch_report(sources, outcomes).failures;
    assert(source_failed(outcome_at(outcomes, source)));
    assert(failures.len() > 0);
    assert(failures[0].index == source) by {
        if failures[0].index < source {
            assert(!source_failed(outcome_at(outcomes, failures[0].index)));
        }
        if failures[0].index > source {
            assert(!source_failed(outcome_at(outcomes, source)));
        }
    }
}

/// Where every source answers with no candidate, the request goes from
/// fetching through aggregating to an empty feed, and the ranking is never
/// asked for.
pub proof fn lemma_empty_sources_skip_ranking(identity: Seq<char>, outcomes: Seq<OutcomeView>)
    requires
        forall|i: int|
            0 <= i < feed_sources().len() ==> !source_failed(#[trigger] outcome_at(outcomes, i))
                && candidate_set(outcome_at(outcomes, i)).len() == 0,
    ensures
        ({
            let fetching = FeedStateView::Fetching { identity };
            let aggregating = next_state(fetching, FeedEventView::Fetched(outcomes));
            let done = next_state(aggregating, FeedEventView::Continued);
            &&& aggregating is Aggregating
            &&& action_of(aggregating) == FeedActionView::Continue
            &&& done == FeedStateView::Done { feed: Seq::empty() }
            &&& action_of(done) == FeedActionView::Reply(posts_reply(Seq::empty()))
        }),
{
    let sources = feed_sources();
    lemma_first_failure(sources, outcomes);
    let sets = candidate_sets(sources.len(), outcomes);
    assert(sets.len() == 3);
    assert(sets[0] =~= Seq::<Seq<char>>::empty()) by {
        assert(!source_failed(outcome_at(outcomes, 0)));
    }
    assert(sets[1] =~= Seq::<Seq<char>>::empty()) by {
        assert(!source_failed(outcome_at(outcomes, 1)));
    }
    assert(sets[2] =~= Seq::<Seq<char>>::empty()) by {
        assert(!source_failed(outcome_at(outcomes, 2)));
    }
    assert(sets =~= seq![sets[0], sets[1], sets[2]]);
    crate::deduplicator::lemma_flatten_of_three(sets[0], sets[1], sets[2]);
    assert(sets.flatten() =~= Seq::<Seq<char>>::empty());
}

/// What a request comes to once its caller has done all that was asked,
/// given the claims of its token, how the requests to the sources ended and
/// how the ranking request ended where it was made.
pub open spec fn request_outcome(
    verified: Option<ClaimsView>,
    fetched: Seq<OutcomeView>,
    ranked: OutcomeView,
) -> FeedStateView {
    let fetching = initial_state(verified);
    let aggregating = next_state(fetching, FeedEventView::Fetched(fetched));
    let ranking = next_state(aggregating, FeedEventView::Continued);
    next_state(ranking, FeedEventView::Ranked(ranked))
}

/// A request ends in exactly one of a feed, an empty feed and a single
/// failure: without a valid identity it fails as such; else with the first
/// source that failed; else it ends in an empty feed where no source held a
/// candidate; else it fails with the ranking, or ends in the ranked feed.
pub proof fn lemma_request_outcome(
    verified: Option<ClaimsView>,
    fetched: Seq<OutcomeView>,
    ranked: OutcomeView,
)
    ensures
        request_outcome(verified, fetched, ranked).is_final(),
        request_outcome(verified, fetched, ranked).well_formed(),
        request_outcome(verified, fetched, ranked) == ({
            let report = fetch_report(feed_sources(), fetched);
            if verified is None || verified->0.sub.len() == 0 {
                FeedStateView::Errored { failure: Failure::InvalidIdentity }
            } else if report.failures.len() > 0 {
                FeedStateView::Errored { failure: source_failure(report.failures[0].index) }
            } else if aggregated(report.sets).len() == 0 {
                FeedStateView::Done { feed: Seq::empty() }
            } else {
                match ranked {
                    OutcomeView::Rows(rows) => FeedStateView::Done { feed: ranked_feed(rows) },
                    OutcomeView::Failed => FeedStateView::Errored { failure: Failure::Ranking },
                }
            }
        }),
{
    let fetching = initial_state(verified);
    let aggregating = next_state(fetching, FeedEventView::Fetched(fetched));
    let ranking = next_state(aggregating, FeedEventView::Continued);
    lemma_initial_state_is_well_formed(verified);
    lemma_next_state_is_well_formed(fetching, FeedEventView::Fetched(fetched));
    lemma_next_state_is_well_formed(aggregating, FeedEventView::Continued);
    lemma_next_state_is_well_formed(ranking, FeedEventView::Ranked(ranked));
}

/// The failures of the three sources are told apart by their replies, and
/// from the failure of the ranking and from a missing identity.
pub proof fn lemma_failures_are_told_apart(first: Failure, second: Failure)
    requires
        first != second,
    ensures
        reply_to_failure(first) != reply_to_failure(second),
{
    reveal_strlit("Invalid token");
    reveal_strlit("Cannot get latest liked posts");
    reveal_strlit("Cannot get latest following posts");
    reveal_strlit("Cannot get latest community posts");
    reveal_strlit("Internal server error");
    let liked = CANNOT_GET_LATEST_LIKED_POSTS@;
    let following = CANNOT_GET_LATEST_FOLLOWING_POSTS@;
    let community = CANNOT_GET_LATEST_COMMUNITY_POSTS@;
    assert(following[18] == 'f');
    assert(community[18] == 'c');
    assert(liked.len() == 29);
    assert(following.len() == 33);
    assert(INVALID_TOKEN@.len() == 13);
    assert(INTERNAL_SERVER_ERROR@.len() == 21);
}

/// The failure that the failure of the source at `index` is to the caller.
fn failure_of_source(index: usize) -> (failure: Failure)
    ensures
        failure == source_failure(index as int),
{
    if index == 0 {
        Failure::LikedSource
    } else if index == 1 {
        Failure::FollowingSource
    } else {
        Failure::CommunitySource
    }
}

/// The reply that `failure` gets.
pub fn failure_response(failure: Failure) -> (reply: Reply)
    ensures
        reply.deep_view() == reply_to_failure(failure),
{
    match failure {
        Failure::InvalidIdentity => Reply::failure(STATUS_BAD_REQUEST, INVALID_TOKEN),
        Failure::LikedSource => Reply::failure(STATUS_BAD_REQUEST, CANNOT_GET_LATEST_LIKED_POSTS),
        Failure::FollowingSource => Reply::failure(
            STATUS_BAD_REQUEST,
            CANNOT_GET_LATEST_FOLLOWING_POSTS,
        ),
        Failure::CommunitySource => Reply::failure(
            STATUS_BAD_REQUEST,
            CANNOT_GET_LATEST_COMMUNITY_POSTS,
        ),
        Failure::Ranking => Reply::failure(STATUS_INTERNAL_SERVER_ERROR, INTERNAL_SERVER_ERROR),
    }
}

/// The state in which a request starts, given the claims of its token where
/// the token was found valid.
pub fn start(verified: Option<Claims>) -> (state: FeedState)
    ensures
        state.deep_view() == initial_state(verified.deep_view()),
        state.deep_view().well_formed(),
{
    match verified {
        Some(claims) => {
            if claims.subject().as_str().is_empty() {
                FeedState::Errored { failure: Failure::InvalidIdentity }
            } else {
                FeedState::Fetching { identity: claims.subject().clone() }
            }
        },
        None => FeedState::Errored { failure: Failure::InvalidIdentity },
    }
}

/// What there is to note of `state`, for the caller to log: the failure of
/// a source.
pub fn notice(state: &FeedState) -> (notice: Option<String>)
    ensures
        notice.deep_view() == notice_of(state.deep_view()),
{
    match state {
        FeedState::Errored { failure } => match failure {
            Failure::LikedSource => Some(CANNOT_GET_LATEST_LIKED_POSTS.to_owned()),
            Failure::FollowingSource => Some(CANNOT_GET_LATEST_FOLLOWING_POSTS.to_owned()),
            Failure::CommunitySource => Some(CANNOT_GET_LATEST_COMMUNITY_POSTS.to_owned()),
            _ => None,
        },
        _ => None,
    }
}

/// What `state` asks of the caller.
pub fn action(state: &FeedState) -> (action: FeedAction)
    ensures
        action.deep_view() == action_of(state.deep_view()),
{
    match state {
        FeedState::Fetching { identity } => FeedAction::Fetch(
            requests_for(identity, &fixed_sources()),
        ),
        FeedState::Aggregating { .. } => FeedAction::Continue,
        FeedState::Ranking { identity, candidates } => FeedAction::Rank(
            crate::ranking::request(identity, candidates),
        ),
        FeedState::Done { feed } => FeedAction::Reply(Reply::posts(copy_posts(feed))),
        FeedState::Errored { failure } => FeedAction::Reply(failure_response(*failure)),
    }
}

/// The state that follows `state` on `event`.
pub fn advance(state: FeedState, event: FeedEvent) -> (next: FeedState)
    ensures
        next.deep_view() == next_state(state.deep_view(), event.deep_view()),
        state.deep_view().well_formed() ==> next.deep_view().well_formed(),
{
    proof {
        if state.deep_view().well_formed() {
            lemma_next_state_is_well_formed(state.deep_view(), event.deep_view());
        }
    }
    match state {
        FeedState::Fetching { identity } => match event {
            FeedEvent::Fetched(outcomes) => {
                let report = settle(&fixed_sources(), &outcomes);
                if report.failures.len() > 0 {
                    assert(report.failures.deep_view()[0] == report.failures[0].deep_view());
                    FeedState::Errored { failure: failure_of_source(report.failures[0].index) }
                } else {
                    FeedState::Aggregating { identity, sets: report.sets }
                }
            },
            _ => FeedState::Fetching { identity },
        },
        FeedState::Aggregating { identity, sets } => match event {
            FeedEvent::Continued => {
                let candidates = aggregate(&sets);
                if candidates.len() == 0 {
                    let feed: Vec<Post> = Vec::new();
                    assert(feed.deep_view() =~= Seq::empty());
                    FeedState::Done { feed }
                } else {
                    FeedState::Ranking { identity, candidates }
                }
            },
            _ => FeedState::Aggregating { identity, sets },
        },
        FeedState::Ranking { identity, candidates } => match event {
            FeedEvent::Ranked(Outcome::Rows(rows)) => FeedState::Done { feed: assemble_feed(&rows) },
            FeedEvent::Ranked(Outcome::Failed) => FeedState::Errored { failure: Failure::Ranking },
            _ => FeedState::Ranking { identity, candidates },
        },
        FeedState::Done { feed } => FeedState::Done { feed },
        FeedState::Errored { failure } => FeedState::Errored { failure },
    }
}

} // verus!
