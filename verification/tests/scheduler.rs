use chrono::{TimeZone, Utc};
use recommendation::scheduler::{
    action, advance, advance_by_clock, begin, begin_by_clock, community_detection, page_rank,
    seconds_until_next_hour, Notice, SchedulerAction, SchedulerEvent, SchedulerState,
    COMMUNITY_DETECTION_FAILED, COMMUNITY_DETECTION_QUERY, CYCLE_STARTS, PAGE_RANK_FAILED,
    PAGE_RANK_QUERY,
};

fn note(text: &str) -> Notice {
    Notice { failure: false, text: text.to_string() }
}

fn alarm(text: &str) -> Notice {
    Notice { failure: true, text: text.to_string() }
}

fn at(hour: u32, minute: u32, second: u32) -> i64 {
    Utc.with_ymd_and_hms(2023, 3, 14, hour, minute, second).unwrap().timestamp()
}

#[test]
fn the_first_wake_after_14_37_is_at_15_00() {
    let wait = seconds_until_next_hour(at(14, 37, 0));
    assert_eq!(wait, 23 * 60);
    assert_eq!(at(14, 37, 0) + wait as i64, at(15, 0, 0));
}

#[test]
fn the_wait_after_a_slow_cycle_is_anchored_to_the_new_time() {
    let first = begin(at(14, 37, 0));
    assert_eq!(first.state, SchedulerState::Waiting);
    assert_eq!(first.action, SchedulerAction::Sleep { seconds: 1380 });
    let woke = advance(first.state, SchedulerEvent::Woke, at(15, 0, 0));
    let ranked = advance(woke.state, SchedulerEvent::Finished { succeeded: true }, at(15, 2, 0));
    let detected =
        advance(ranked.state, SchedulerEvent::Finished { succeeded: true }, at(15, 5, 0));
    assert_eq!(detected.state, SchedulerState::Waiting);
    assert_eq!(detected.action, SchedulerAction::Sleep { seconds: 55 * 60 });
    assert_eq!(at(15, 5, 0) + 55 * 60, at(16, 0, 0));
}

#[test]
fn a_cycle_that_runs_past_the_next_hour_waits_for_the_hour_after() {
    let detected = advance(
        SchedulerState::CommunityDetection,
        SchedulerEvent::Finished { succeeded: true },
        at(16, 0, 1),
    );
    assert_eq!(detected.action, SchedulerAction::Sleep { seconds: 3599 });
}

#[test]
fn the_wait_at_a_full_hour_is_a_whole_hour() {
    assert_eq!(seconds_until_next_hour(at(15, 0, 0)), 3600);
    assert_eq!(seconds_until_next_hour(0), 3600);
}

#[test]
fn the_wait_a_second_before_a_full_hour_is_a_second() {
    assert_eq!(seconds_until_next_hour(at(14, 59, 59)), 1);
    assert_eq!(seconds_until_next_hour(3599), 1);
}

#[test]
fn the_wait_before_the_epoch_ends_at_a_full_hour_too() {
    assert_eq!(seconds_until_next_hour(-1), 1);
    assert_eq!(seconds_until_next_hour(-3600), 3600);
    assert_eq!(seconds_until_next_hour(-3601), 1);
    assert_eq!(seconds_until_next_hour(-5400), 1800);
}

#[test]
fn the_wait_at_the_ends_of_the_clock_is_in_range() {
    let low = seconds_until_next_hour(i64::MIN);
    let high = seconds_until_next_hour(i64::MAX);
    assert_eq!(low, 1808);
    assert_eq!(high, 1793);
}

#[test]
fn a_failed_influence_rank_does_not_stop_the_community_detection() {
    let mut runs: Vec<String> = Vec::new();
    let mut notices: Vec<Notice> = Vec::new();
    let mut step = advance(SchedulerState::Waiting, SchedulerEvent::Woke, at(15, 0, 0));
    for _ in 0..2 {
        notices.extend(step.notice.clone());
        match &step.action {
            SchedulerAction::Run { job } => runs.push(job.name.clone()),
            SchedulerAction::Sleep { .. } => panic!("the cycle ended early"),
        }
        step = advance(step.state, SchedulerEvent::Finished { succeeded: false }, at(15, 0, 1));
    }
    notices.extend(step.notice.clone());
    assert_eq!(runs, vec!["PageRank".to_string(), "Community Detection".to_string()]);
    assert_eq!(
        notices,
        vec![
            note("Starting PageRank and Community Detection..."),
            alarm("PageRank did not work as expected"),
            alarm("Community Detection did not work as expected")
        ]
    );
    assert_eq!(step.state, SchedulerState::Waiting);
    assert_eq!(step.action, SchedulerAction::Sleep { seconds: 3599 });
}

#[test]
fn both_jobs_run_in_every_cycle_whatever_the_outcomes() {
    for first in [true, false] {
        for second in [true, false] {
            let woke = advance(SchedulerState::Waiting, SchedulerEvent::Woke, 0);
            assert_eq!(woke.action, SchedulerAction::Run { job: page_rank() });
            let ranked =
                advance(woke.state, SchedulerEvent::Finished { succeeded: first }, 0);
            assert_eq!(ranked.action, SchedulerAction::Run { job: community_detection() });
            assert_eq!(ranked.notice.is_some(), !first);
            let detected =
                advance(ranked.state, SchedulerEvent::Finished { succeeded: second }, 0);
            assert_eq!(detected.state, SchedulerState::Waiting);
            assert_eq!(detected.notice.is_some(), !second);
        }
    }
}

#[test]
fn a_job_that_succeeded_leaves_no_notice() {
    let ranked =
        advance(SchedulerState::InfluenceRank, SchedulerEvent::Finished { succeeded: true }, 0);
    assert_eq!(ranked.notice, None);
    assert_eq!(ranked.state, SchedulerState::CommunityDetection);
}

#[test]
fn a_scheduler_event_that_is_not_waited_for_changes_nothing() {
    let still_waiting =
        advance(SchedulerState::Waiting, SchedulerEvent::Finished { succeeded: false }, 1800);
    assert_eq!(still_waiting.state, SchedulerState::Waiting);
    assert_eq!(still_waiting.action, SchedulerAction::Sleep { seconds: 1800 });
    assert_eq!(still_waiting.notice, None);
    let still_ranking = advance(SchedulerState::InfluenceRank, SchedulerEvent::Woke, 0);
    assert_eq!(still_ranking.state, SchedulerState::InfluenceRank);
    assert_eq!(still_ranking.action, SchedulerAction::Run { job: page_rank() });
    assert_eq!(still_ranking.notice, None);
    let still_detecting = advance(SchedulerState::CommunityDetection, SchedulerEvent::Woke, 0);
    assert_eq!(still_detecting.state, SchedulerState::CommunityDetection);
    assert_eq!(still_detecting.action, SchedulerAction::Run { job: community_detection() });
}

#[test]
fn the_jobs_are_the_two_fixed_ones() {
    let influence = page_rank();
    assert_eq!(influence.name, "PageRank");
    assert_eq!(influence.query, PAGE_RANK_QUERY);
    assert_eq!(influence.cadence, 3600);
    let communities = community_detection();
    assert_eq!(communities.name, "Community Detection");
    assert_eq!(communities.query, COMMUNITY_DETECTION_QUERY);
    assert_eq!(communities.cadence, 3600);
    assert!(influence.query.contains("pagerank_online.update"));
    assert!(communities.query.contains("community_detection_online.update"));
}

#[test]
fn the_action_of_a_state_is_its_job_or_its_wait() {
    assert_eq!(action(SchedulerState::Waiting, 600), SchedulerAction::Sleep { seconds: 3000 });
    assert_eq!(action(SchedulerState::InfluenceRank, 600), SchedulerAction::Run { job: page_rank() });
    assert_eq!(
        action(SchedulerState::CommunityDetection, 600),
        SchedulerAction::Run { job: community_detection() }
    );
}

#[test]
fn the_scheduler_by_the_clock_waits_for_at_most_an_hour() {
    let before = Utc::now().timestamp();
    let first = begin_by_clock();
    let after = Utc::now().timestamp();
    assert_eq!(first.state, SchedulerState::Waiting);
    assert_eq!(first.notice, None);
    match first.action {
        SchedulerAction::Sleep { seconds } => {
            assert!(1 <= seconds && seconds <= 3600);
            let earliest = seconds_until_next_hour(after);
            let latest = seconds_until_next_hour(before);
            assert!(seconds == earliest || seconds == latest || after - before >= 1);
        },
        SchedulerAction::Run { .. } => panic!("the scheduler must start by waiting"),
    }
}

#[test]
fn the_scheduler_by_the_clock_follows_the_same_cycle() {
    let woke = advance_by_clock(SchedulerState::Waiting, SchedulerEvent::Woke);
    assert_eq!(woke.state, SchedulerState::InfluenceRank);
    assert_eq!(woke.action, SchedulerAction::Run { job: page_rank() });
    assert_eq!(woke.notice, Some(note(CYCLE_STARTS)));
    let ranked = advance_by_clock(woke.state, SchedulerEvent::Finished { succeeded: false });
    assert_eq!(ranked.state, SchedulerState::CommunityDetection);
    assert_eq!(ranked.notice, Some(alarm(PAGE_RANK_FAILED)));
    let detected = advance_by_clock(ranked.state, SchedulerEvent::Finished { succeeded: true });
    assert_eq!(detected.state, SchedulerState::Waiting);
    assert_eq!(detected.notice, None);
    match detected.action {
        SchedulerAction::Sleep { seconds } => assert!(1 <= seconds && seconds <= 3600),
        SchedulerAction::Run { .. } => panic!("the cycle must end in a wait"),
    }
    let failed = advance_by_clock(ranked.state, SchedulerEvent::Finished { succeeded: false });
    assert_eq!(failed.notice, Some(alarm(COMMUNITY_DETECTION_FAILED)));
}
