//! The analytics scheduler: at every full hour it runs the two analytics
//! jobs, one after the other, and then waits for the next full hour.
//!
//! The scheduler decides and its caller acts: the caller sleeps or runs the
//! job that a [`SchedulerStep`] asks for, and reports what came of it.

use vstd::prelude::*;

verus! {

/// The seconds between two runs of the analytics.
pub const SECONDS_PER_HOUR: u64 = 3600;

/// The name of the job that recomputes the influence rank.
pub const PAGE_RANK: &'static str = "PageRank";

/// The name of the job that recomputes the communities.
pub const COMMUNITY_DETECTION: &'static str = "Community Detection";

/// Recomputes the influence rank of every user from the links between users.
pub const PAGE_RANK_QUERY: &'static str =
    "MATCH p=(n:User)-[r]->(m:User) WHERE type(r) <> 'Block' WITH project(p) as graph CALL pagerank_online.update(graph) YIELD node, rank SET node.rank = rank;";

/// Recomputes the community of every user from what users do.
pub const COMMUNITY_DETECTION_QUERY: &'static str =
    "MATCH p=(n:User)-[r]->(m) WHERE type(r) <> 'Block' AND type(r) <> 'View' WITH project(p) as graph CALL community_detection_online.update(graph) YIELD node, community_id WITH node, community_id WHERE labels(node) = ['User'] SET node.community = community_id;";

/// What is noted when a cycle starts.
pub const CYCLE_STARTS: &'static str = "Starting PageRank and Community Detection...";

/// What is noted when the influence rank job failed.
pub const PAGE_RANK_FAILED: &'static str = "PageRank did not work as expected";

/// What is noted when the community detection job failed.
pub const COMMUNITY_DETECTION_FAILED: &'static str =
    "Community Detection did not work as expected";

/// An analytics job: its name, the query that does it, and the seconds
/// between two runs of it.
#[derive(Clone, Debug, PartialEq, Eq)]
pub struct AnalyticsJob {
    pub name: String,
    pub query: String,
    pub cadence: u64,
}

/// What an [`AnalyticsJob`] is to the contracts.
pub struct AnalyticsJobView {
    pub name: Seq<char>,
    pub query: Seq<char>,
    pub cadence: u64,
}

impl DeepView for AnalyticsJob {
    type V = AnalyticsJobView;

    open spec fn deep_view(&self) -> AnalyticsJobView {
        AnalyticsJobView { name: self.name@, query: self.query@, cadence: self.cadence }
    }
}

/// Where the scheduler stands in its cycle.
#[derive(Clone, Copy, PartialEq, Eq, Structural, Debug)]
pub enum SchedulerState {
    /// Waiting for the next full hour.
    Waiting,
    /// The influence rank job is running.
    InfluenceRank,
    /// The community detection job is running.
    CommunityDetection,
}

/// What the caller reports back to the scheduler.
#[derive(Clone, Copy, PartialEq, Eq, Structural, Debug)]
pub enum SchedulerEvent {
    /// The sleep that was asked for is over.
    Woke,
    /// The job that was asked for has ended, well or not.
    Finished { succeeded: bool },
}

/// What the scheduler asks of its caller.
#[derive(Clone, Debug, PartialEq, Eq)]
pub enum SchedulerAction {
    /// Sleep for so many seconds, then report that the sleep is over.
    Sleep { seconds: u64 },
    /// Run this job, then report how it ended.
    Run { job: AnalyticsJob },
}

/// What a [`SchedulerAction`] is to the contracts.
pub enum SchedulerActionView {
    Sleep { seconds: u64 },
    Run { job: AnalyticsJobView },
}

impl DeepView for SchedulerAction {
    type V = SchedulerActionView;

    open spec fn deep_view(&self) -> SchedulerActionView {
        match self {
            SchedulerAction::Sleep { seconds } => SchedulerActionView::Sleep { seconds: *seconds },
            SchedulerAction::Run { job } => SchedulerActionView::Run { job: job.deep_view() },
        }
    }
}

/// Something for the caller to note down: a text, and whether it reports a
/// failure.
#[derive(Clone, Debug, PartialEq, Eq)]
pub struct Notice {
    pub failure: bool,
    pub text: String,
}

/// What a [`Notice`] is to the contracts.
pub struct NoticeView {
    pub failure: bool,
    pub text: Seq<char>,
}

impl DeepView for Notice {
    type V = NoticeView;

    open spec fn deep_view(&self) -> NoticeView {
        NoticeView { failure: self.failure, text: self.text@ }
    }
}

/// One step of the scheduler: the state it is in now, what it asks of the
/// caller, and what there is to note.
#[derive(Clone, Debug, PartialEq, Eq)]
pub struct SchedulerStep {
    pub state: SchedulerState,
    pub action: SchedulerAction,
    pub notice: Option<Notice>,
}

/// What a [`SchedulerStep`] is to the contracts.
pub struct SchedulerStepView {
    pub state: SchedulerState,
    pub action: SchedulerActionView,
    pub notice: Option<NoticeView>,
}

impl DeepView for SchedulerStep {
    type V = SchedulerStepView;

    open spec fn deep_view(&self) -> SchedulerStepView {
        SchedulerStepView {
            state: self.state,
            action: self.action.deep_view(),
            notice: self.notice.deep_view(),
        }
    }
}

/// Whether `time`, in seconds since the Unix epoch, is a full hour.
pub open spec fn is_full_hour(time: int) -> bool {
    time % (SECONDS_PER_HOUR as int) == 0
}

/// The first full hour after `now`, both in seconds since the Unix epoch.
pub open spec fn next_hour(now: int) -> int {
    now - now % (SECONDS_PER_HOUR as int) + SECONDS_PER_HOUR
}

/// The seconds from `now` to the first full hour after it.
pub open spec fn wait_until_next_hour(now: int) -> int {
    next_hour(now) - now
}

/// The job that recomputes the influence rank.
pub open spec fn page_rank_job() -> AnalyticsJobView {
    AnalyticsJobView { name: PAGE_RANK@, query: PAGE_RANK_QUERY@, cadence: SECONDS_PER_HOUR }
}

/// The job that recomputes the communities.
pub open spec fn community_detection_job() -> AnalyticsJobView {
    AnalyticsJobView {
        name: COMMUNITY_DETECTION@,
        query: COMMUNITY_DETECTION_QUERY@,
        cadence: SECONDS_PER_HOUR,
    }
}

/// The state that follows `state` on `event`. The sleep is followed by the
/// influence rank job, that job by the community detection job however it
/// ended, and that one by the next sleep however it ended. An event that the
/// state does not wait for changes nothing.
pub open spec fn next_state(state: SchedulerState, event: SchedulerEvent) -> SchedulerState {
    match (state, event) {
        (SchedulerState::Waiting, SchedulerEvent::Woke) => SchedulerState::InfluenceRank,
        (
            SchedulerState::InfluenceRank,
            SchedulerEvent::Finished { succeeded },
        ) => SchedulerState::CommunityDetection,
        (
            SchedulerState::CommunityDetection,
            SchedulerEvent::Finished { succeeded },
        ) => SchedulerState::Waiting,
        _ => state,
    }
}

/// The job that runs in `state`; none runs while the scheduler waits.
pub open spec fn job_of(state: SchedulerState) -> Option<AnalyticsJobView> {
    match state {
        SchedulerState::Waiting => None,
        SchedulerState::InfluenceRank => Some(page_rank_job()),
        SchedulerState::CommunityDetection => Some(community_detection_job()),
    }
}

/// What `state` asks of the caller when the clock reads `now`: to run the
/// job of the state, or to sleep until the first full hour after `now`.
pub open spec fn action_of(state: SchedulerState, now: int) -> SchedulerActionView {
    match job_of(state) {
        Some(job) => SchedulerActionView::Run { job },
        None => SchedulerActionView::Sleep { seconds: wait_until_next_hour(now) as u64 },
    }
}

/// What there is to note when `event` is reported in `state`: the start of
/// a cycle, and each job that failed.
pub open spec fn notice_of(state: SchedulerState, event: SchedulerEvent) -> Option<NoticeView> {
    match (state, event) {
        (SchedulerState::Waiting, SchedulerEvent::Woke) => Some(
            NoticeView { failure: false, text: CYCLE_STARTS@ },
        ),
        (SchedulerState::InfluenceRank, SchedulerEvent::Finished { succeeded }) => if succeeded {
            None
        } else {
            Some(NoticeView { failure: true, text: PAGE_RANK_FAILED@ })
        },
        (
            SchedulerState::CommunityDetection,
            SchedulerEvent::Finished { succeeded },
        ) => if succeeded {
            None
        } else {
            Some(NoticeView { failure: true, text: COMMUNITY_DETECTION_FAILED@ })
        },
        _ => None,
    }
}

/// The first step of the scheduler when the clock reads `now`.
pub open spec fn first_step(now: int) -> SchedulerStepView {
    SchedulerStepView {
        state: SchedulerState::Waiting,
        action: action_of(SchedulerState::Waiting, now),
        notice: None,
    }
}

/// The step that follows `state` on `event` when the clock reads `now`.
pub open spec fn step_at(state: SchedulerState, event: SchedulerEvent, now: int) -> SchedulerStepView {
    SchedulerStepView {
        state: next_state(state, event),
        action: action_of(next_state(state, event), now),
        notice: notice_of(state, event),
    }
}

/// Whatever the clock reads, the wait ends at the first full hour after the
/// reading: the wait is at least a second and at most an hour, it ends at a
/// full hour, and no full hour lies between the reading and its end.
pub proof fn lemma_wait_ends_at_next_hour(now: int)
    ensures
        1 <= wait_until_next_hour(now) <= SECONDS_PER_HOUR,
        is_full_hour(now + wait_until_next_hour(now)),
        forall|hour: int|
            now < hour && #[trigger] is_full_hour(hour) ==> now + wait_until_next_hour(now) <= hour,
{
    let boundary = next_hour(now);
    assert(boundary % 3600 == 0) by {
        assert(boundary == 3600 * (now / 3600 + 1));
    }
    assert forall|hour: int| now < hour && #[trigger] is_full_hour(hour) implies boundary
        <= hour by {
        assert(hour == 3600 * (hour / 3600));
        assert(boundary == 3600 * (now / 3600 + 1));
        if hour < boundary {
            assert(hour / 3600 < now / 3600 + 1);
            assert(hour / 3600 <= now / 3600);
            assert(hour <= 3600 * (now / 3600));
        }
    }
}

/// Each wait is anchored to the clock as it reads when the wait begins: a
/// cycle that began late or ran long delays no later cycle.
pub proof fn lemma_waits_do_not_drift(earlier: int, later: int)
    requires
        earlier <= later,
    ensures
        later + wait_until_next_hour(later) == next_hour(later),
        next_hour(earlier) <= next_hour(later),
        later < next_hour(earlier) ==> next_hour(later) == next_hour(earlier),
{
    lemma_wait_ends_at_next_hour(earlier);
    lemma_wait_ends_at_next_hour(later);
    assert(is_full_hour(next_hour(later)));
    assert(is_full_hour(next_hour(earlier)));
}

/// The community detection job runs after the influence rank job, whether
/// that one succeeded or failed, and the next wait follows whether the
/// community detection succeeded or failed.
pub proof fn lemma_failures_do_not_stop_the_cycle(
    influence_rank_succeeded: bool,
    community_detection_succeeded: bool,
    now: int,
)
    ensures
        ({
            let woke = step_at(SchedulerState::Waiting, SchedulerEvent::Woke, now);
            let ranked = step_at(
                woke.state,
                SchedulerEvent::Finished { succeeded: influence_rank_succeeded },
                now,
            );
            let detected = step_at(
                ranked.state,
                SchedulerEvent::Finished { succeeded: community_detection_succeeded },
                now,
            );
            &&& woke.action == SchedulerActionView::Run { job: page_rank_job() }
            &&& ranked.action == SchedulerActionView::Run { job: community_detection_job() }
            &&& ranked.notice is Some <==> !influence_rank_succeeded
            &&& detected.state == SchedulerState::Waiting
            &&& detected.action is Sleep
            &&& detected.notice is Some <==> !community_detection_succeeded
        }),
{
}

/// The seconds from `now`, in seconds since the Unix epoch, to the first
/// full hour after it.
pub fn seconds_until_next_hour(now: i64) -> (wait: u64)
    ensures
        wait == wait_until_next_hour(now as int),
        1 <= wait <= 3600,
        is_full_hour(now + wait),
{
    proof {
        lemma_wait_ends_at_next_hour(now as int);
    }
    let hour: i64 = SECONDS_PER_HOUR as i64;
    let past: i64 = now.checked_rem_euclid(hour).unwrap();
    let wait: i64 = hour - past;
    wait as u64
}

/// The job that recomputes the influence rank.
pub fn page_rank() -> (job: AnalyticsJob)
    ensures
        job.deep_view() == page_rank_job(),
{
    AnalyticsJob {
        name: PAGE_RANK.to_owned(),
        query: PAGE_RANK_QUERY.to_owned(),
        cadence: SECONDS_PER_HOUR,
    }
}

/// The job that recomputes the communities.
pub fn community_detection() -> (job: AnalyticsJob)
    ensures
        job.deep_view() == community_detection_job(),
{
    AnalyticsJob {
        name: COMMUNITY_DETECTION.to_owned(),
        query: COMMUNITY_DETECTION_QUERY.to_owned(),
        cadence: SECONDS_PER_HOUR,
    }
}

/// What `state` asks of the caller when the clock reads `now`.
pub fn action(state: SchedulerState, now: i64) -> (action: SchedulerAction)
    ensures
        action.deep_view() == action_of(state, now as int),
{
    match state {
        SchedulerState::Waiting => SchedulerAction::Sleep { seconds: seconds_until_next_hour(now) },
        SchedulerState::InfluenceRank => SchedulerAction::Run { job: page_rank() },
        SchedulerState::CommunityDetection => SchedulerAction::Run { job: community_detection() },
    }
}

/// The first step of the scheduler when the clock reads `now`: to wait for
/// the first full hour after `now`.
pub fn begin(now: i64) -> (step: SchedulerStep)
    ensures
        step.deep_view() == first_step(now as int),
{
    SchedulerStep {
        state: SchedulerState::Waiting,
        action: action(SchedulerState::Waiting, now),
        notice: None,
    }
}

/// The step that follows `state` on `event` when the clock reads `now`.
pub fn advance(state: SchedulerState, event: SchedulerEvent, now: i64) -> (step: SchedulerStep)
    ensures
        step.deep_view() == step_at(state, event, now as int),
{
    let mut notice: Option<Notice> = None;
    let next = match (state, event) {
        (SchedulerState::Waiting, SchedulerEvent::Woke) => {
            notice = Some(Notice { failure: false, text: CYCLE_STARTS.to_owned() });
            SchedulerState::InfluenceRank
        },
        (SchedulerState::InfluenceRank, SchedulerEvent::Finished { succeeded }) => {
            if !succeeded {
                notice = Some(Notice { failure: true, text: PAGE_RANK_FAILED.to_owned() });
            }
            SchedulerState::CommunityDetection
        },
        (SchedulerState::CommunityDetection, SchedulerEvent::Finished { succeeded }) => {
            if !succeeded {
                notice = Some(Notice { failure: true, text: COMMUNITY_DETECTION_FAILED.to_owned() });
            }
            SchedulerState::Waiting
        },
        _ => state,
    };
    SchedulerStep { state: next, action: action(next, now), notice }
}

/// The seconds since the Unix epoch as the system clock reads now, taken
/// from `chrono::Utc::now` and `DateTime::timestamp`. Nothing is claimed of
/// the reading. `Utc::now` panics where the system clock reads a time before
/// the epoch.
#[verifier::external_body]
fn unix_time() -> i64 {
    chrono::Utc::now().timestamp()
}

/// The first step of the scheduler by the system clock: to wait for the
/// first full hour after the time that the clock reads.
///
/// # Panics
///
/// Panics where the system clock reads a time before the Unix epoch, as
/// `chrono::Utc::now` does.
pub fn begin_by_clock() -> (step: SchedulerStep)
    ensures
        exists|now: int| #[trigger] first_step(now) == step.deep_view(),
        step.state == SchedulerState::Waiting,
        step.action.deep_view() matches SchedulerActionView::Sleep { seconds } && 1 <= seconds
            <= 3600,
        step.notice is None,
{
    let now = unix_time();
    proof {
        lemma_wait_ends_at_next_hour(now as int);
    }
    let step = begin(now);
    assert(first_step(now as int) == step.deep_view());
    step
}

/// The step that follows `state` on `event` by the system clock. The next
/// state and the notice do not depend on the clock; a wait ends at the first
/// full hour after the time that the clock reads.
///
/// # Panics
///
/// Panics where the system clock reads a time before the Unix epoch, as
/// `chrono::Utc::now` does.
pub fn advance_by_clock(state: SchedulerState, event: SchedulerEvent) -> (step: SchedulerStep)
    ensures
        exists|now: int| #[trigger] step_at(state, event, now) == step.deep_view(),
        step.state == next_state(state, event),
        step.notice.deep_view() == notice_of(state, event),
        match job_of(step.state) {
            Some(job) => step.action.deep_view() == (SchedulerActionView::Run { job }),
            None => step.action.deep_view() matches SchedulerActionView::Sleep { seconds } && 1
                <= seconds <= 3600,
        },
{
    let now = unix_time();
    proof {
        lemma_wait_ends_at_next_hour(now as int);
    }
    let step = advance(state, event, now);
    assert(step_at(state, event, now as int) == step.deep_view());
    step
}

} // verus!
