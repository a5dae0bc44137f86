//! End-to-end campaign scenarios under a small custom configuration, the
//! exact error for every rejection, transfer-failure atomicity, and the
//! event log.

use project_launch::Config;
use project_launch::Error;
use project_launch::Event;
use project_launch::Party;
use project_launch::ProjectLaunch;
use project_launch::ProjectStatus;

const CREATOR: u64 = 7;
const CONTRIBUTOR: u64 = 9;
const OTHER: u64 = 11;
const TOKEN: u64 = 42;

const DAY: u64 = 86400;

fn small_config() -> Config {
    Config {
        min_funding_goal: 500,
        min_contribution: 100,
        min_project_duration: DAY,
        max_project_duration: 365 * DAY,
    }
}

#[test]
fn contributions_accumulate_before_deadline() {
    let mut launch = ProjectLaunch::new(small_config());
    let now: u64 = 1000;
    let deadline = now + 7 * DAY;
    let id = launch
        .create_project(now, CREATOR, 1000, deadline, TOKEN, b"hash".to_vec())
        .unwrap();

    launch.contribute(now + 10, id, CONTRIBUTOR, 400, true).unwrap();
    launch.contribute(now + 20, id, CONTRIBUTOR, 400, true).unwrap();

    assert_eq!(launch.get_user_contribution(id, CONTRIBUTOR), 800);
    assert_eq!(launch.get_project(id).unwrap().total_raised, 800);
}

#[test]
fn settle_below_goal_fails_project_once() {
    let mut launch = ProjectLaunch::new(small_config());
    let now: u64 = 1000;
    let deadline = now + 7 * DAY;
    let id = launch
        .create_project(now, CREATOR, 1000, deadline, TOKEN, b"hash".to_vec())
        .unwrap();
    launch.contribute(now + 10, id, CONTRIBUTOR, 800, true).unwrap();

    launch.mark_project_failed(deadline + 1, id).unwrap();

    assert_eq!(launch.get_project(id).unwrap().status, ProjectStatus::Failed);
    assert!(launch.is_failure_processed(id));
    let last = *launch.event_log().last().unwrap();
    assert_eq!(last, Event::ProjectFailed { project_id: id });

    // a second settlement is a conflict and changes nothing
    let again = launch.mark_project_failed(deadline + 2, id);
    assert_eq!(again, Err(Error::InvalidProjectStatus));
    assert_eq!(launch.get_project(id).unwrap().status, ProjectStatus::Failed);
    assert_eq!(launch.get_project(id).unwrap().total_raised, 800);
}

#[test]
fn refund_pays_back_exactly_once() {
    let mut launch = ProjectLaunch::new(small_config());
    let now: u64 = 1000;
    let deadline = now + 7 * DAY;
    let id = launch
        .create_project(now, CREATOR, 1000, deadline, TOKEN, b"hash".to_vec())
        .unwrap();
    launch.contribute(now + 10, id, CONTRIBUTOR, 800, true).unwrap();
    launch.mark_project_failed(deadline + 1, id).unwrap();

    let request = launch.refund_request(id, CONTRIBUTOR).unwrap();
    assert_eq!(request.from, Party::Escrow);
    assert_eq!(request.to, Party::Account(CONTRIBUTOR));
    assert_eq!(request.token, TOKEN);
    assert_eq!(request.amount, 800);

    let refunded = launch.refund_contributor(id, CONTRIBUTOR, true).unwrap();
    assert_eq!(refunded, 800);
    assert!(launch.is_refunded(id, CONTRIBUTOR));

    // a second refund is a conflict and pays nothing
    let again = launch.refund_contributor(id, CONTRIBUTOR, true);
    assert_eq!(again, Err(Error::InvalidInput));
    assert!(launch.refund_request(id, CONTRIBUTOR).is_err());
}

#[test]
fn overfunded_project_completes_and_blocks_refunds() {
    let mut launch = ProjectLaunch::new(small_config());
    let now: u64 = 1000;
    let deadline = now + 7 * DAY;
    let id = launch
        .create_project(now, CREATOR, 500, deadline, TOKEN, b"hash".to_vec())
        .unwrap();
    launch.contribute(now + 10, id, CONTRIBUTOR, 600, true).unwrap();

    launch.mark_project_failed(deadline + 1, id).unwrap();
    assert_eq!(launch.get_project(id).unwrap().status, ProjectStatus::Completed);
    assert!(launch.is_failure_processed(id));

    // refunds are unavailable on a completed project
    let refund = launch.refund_contributor(id, CONTRIBUTOR, true);
    assert_eq!(refund, Err(Error::ProjectNotActive));
}

#[test]
fn contribution_below_minimum_changes_nothing() {
    let mut launch = ProjectLaunch::new(small_config());
    let now: u64 = 1000;
    let deadline = now + 7 * DAY;
    let id = launch
        .create_project(now, CREATOR, 1000, deadline, TOKEN, b"hash".to_vec())
        .unwrap();
    let events_before = launch.event_log().len();

    // no transfer is even requested
    assert_eq!(
        launch.contribution_request(now + 10, id, CONTRIBUTOR, 99),
        Err(Error::ContributionTooLow)
    );
    let result = launch.contribute(now + 10, id, CONTRIBUTOR, 99, true);
    assert_eq!(result, Err(Error::ContributionTooLow));

    assert_eq!(launch.get_user_contribution(id, CONTRIBUTOR), 0);
    assert_eq!(launch.get_project(id).unwrap().total_raised, 0);
    assert_eq!(launch.event_log().len(), events_before);
}

#[test]
fn deadline_below_minimum_duration_burns_no_id() {
    let mut launch = ProjectLaunch::new(small_config());
    let now: u64 = 1000;

    let result = launch.create_project(now, CREATOR, 1000, now + 1, TOKEN, b"hash".to_vec());
    assert_eq!(result, Err(Error::InvalidDeadline));
    assert_eq!(launch.get_next_project_id(), 0);
}

#[test]
fn every_rejection_names_its_error() {
    let mut launch = ProjectLaunch::new(small_config());
    let now: u64 = 1000;
    let deadline = now + 7 * DAY;

    launch.initialize(1).unwrap();
    assert_eq!(launch.initialize(2), Err(Error::AlreadyInitialized));

    assert_eq!(
        launch.create_project(now, CREATOR, 499, deadline, TOKEN, b"hash".to_vec()),
        Err(Error::InvalidFundingGoal)
    );
    assert_eq!(
        launch.create_project(now, CREATOR, 1000, now + 400 * DAY, TOKEN, b"hash".to_vec()),
        Err(Error::InvalidDeadline)
    );

    let id = launch
        .create_project(now, CREATOR, 1000, deadline, TOKEN, b"hash".to_vec())
        .unwrap();

    assert_eq!(launch.contribute(now, 5, CONTRIBUTOR, 400, true), Err(Error::ProjectNotFound));
    assert!(launch.get_project(5).is_err());
    assert_eq!(
        launch.contribute(deadline, id, CONTRIBUTOR, 400, true),
        Err(Error::DeadlinePassed)
    );

    // settling too early is rejected as invalid input
    assert_eq!(launch.mark_project_failed(deadline, id), Err(Error::InvalidInput));
    assert_eq!(launch.mark_project_failed(now, 5), Err(Error::ProjectNotFound));

    // refunds before any failure decision are a status conflict
    launch.contribute(now + 10, id, CONTRIBUTOR, 400, true).unwrap();
    assert_eq!(launch.refund_contributor(id, CONTRIBUTOR, true), Err(Error::ProjectNotActive));
    assert_eq!(launch.refund_contributor(5, CONTRIBUTOR, true), Err(Error::ProjectNotFound));

    launch.mark_project_failed(deadline + 1, id).unwrap();
    // a contribution to a settled project is a status conflict
    assert_eq!(
        launch.contribute(deadline - 10, id, CONTRIBUTOR, 400, true),
        Err(Error::ProjectNotActive)
    );
    // refunding someone who never contributed is rejected
    assert_eq!(launch.refund_contributor(id, OTHER, true), Err(Error::InvalidInput));
}

#[test]
fn failed_transfer_aborts_and_allows_retry() {
    let mut launch = ProjectLaunch::new(small_config());
    let now: u64 = 1000;
    let deadline = now + 7 * DAY;
    let id = launch
        .create_project(now, CREATOR, 1000, deadline, TOKEN, b"hash".to_vec())
        .unwrap();

    // a failed inbound transfer leaves no trace
    let result = launch.contribute(now + 10, id, CONTRIBUTOR, 400, false);
    assert_eq!(result, Err(Error::TransferFailed));
    assert_eq!(launch.get_user_contribution(id, CONTRIBUTOR), 0);
    assert_eq!(launch.get_project(id).unwrap().total_raised, 0);

    // the retry succeeds
    launch.contribute(now + 20, id, CONTRIBUTOR, 400, true).unwrap();
    assert_eq!(launch.get_user_contribution(id, CONTRIBUTOR), 400);

    launch.mark_project_failed(deadline + 1, id).unwrap();

    // a failed outbound transfer sets no marker, so the refund can be retried
    let result = launch.refund_contributor(id, CONTRIBUTOR, false);
    assert_eq!(result, Err(Error::TransferFailed));
    assert!(!launch.is_refunded(id, CONTRIBUTOR));
    let refunded = launch.refund_contributor(id, CONTRIBUTOR, true).unwrap();
    assert_eq!(refunded, 400);
}

#[test]
fn event_log_records_each_step() {
    let mut launch = ProjectLaunch::new(small_config());
    let now: u64 = 1000;
    let deadline = now + 7 * DAY;
    let id = launch
        .create_project(now, CREATOR, 1000, deadline, TOKEN, b"hash".to_vec())
        .unwrap();
    launch.contribute(now + 10, id, CONTRIBUTOR, 400, true).unwrap();
    launch.contribute(now + 20, id, OTHER, 300, true).unwrap();
    launch.mark_project_failed(deadline + 1, id).unwrap();
    launch.refund_contributor(id, CONTRIBUTOR, true).unwrap();

    let expected = vec![
        Event::ProjectCreated {
            project_id: id,
            creator: CREATOR,
            funding_goal: 1000,
            deadline,
            token: TOKEN,
        },
        Event::ContributionMade {
            project_id: id,
            contributor: CONTRIBUTOR,
            amount: 400,
            total_raised: 400,
        },
        Event::ContributionMade { project_id: id, contributor: OTHER, amount: 300, total_raised: 700 },
        Event::ProjectFailed { project_id: id },
        Event::RefundIssued { project_id: id, contributor: CONTRIBUTOR, amount: 400 },
    ];
    assert_eq!(*launch.event_log(), expected);
}

#[test]
fn total_raised_is_the_sum_over_contributors() {
    let mut launch = ProjectLaunch::new(small_config());
    let now: u64 = 1000;
    let deadline = now + 7 * DAY;
    let id = launch
        .create_project(now, CREATOR, 1000, deadline, TOKEN, b"hash".to_vec())
        .unwrap();

    launch.contribute(now + 10, id, CONTRIBUTOR, 400, true).unwrap();
    launch.contribute(now + 20, id, OTHER, 300, true).unwrap();
    launch.contribute(now + 30, id, CONTRIBUTOR, 250, true).unwrap();

    let sum = launch.get_user_contribution(id, CONTRIBUTOR) + launch.get_user_contribution(id, OTHER);
    assert_eq!(launch.get_project(id).unwrap().total_raised, sum);
    assert_eq!(sum, 950);
}

#[test]
fn boundary_values_are_accepted() {
    let mut launch = ProjectLaunch::new(small_config());
    let now: u64 = 1000;

    // a deadline exactly at the minimum and at the maximum duration is fine
    let earliest = launch
        .create_project(now, CREATOR, 1000, now + DAY, TOKEN, b"hash".to_vec())
        .unwrap();
    let latest = launch
        .create_project(now, CREATOR, 500, now + 365 * DAY, TOKEN, b"hash".to_vec())
        .unwrap();
    assert_eq!(launch.get_next_project_id(), 2);

    // a goal and a contribution exactly at the minimum are fine
    launch.contribute(now + 10, earliest, CONTRIBUTOR, 100, true).unwrap();
    assert_eq!(launch.get_user_contribution(earliest, CONTRIBUTOR), 100);

    // the last second before the deadline still accepts contributions
    launch.contribute(now + DAY - 1, earliest, CONTRIBUTOR, 100, true).unwrap();
    assert_eq!(launch.get_user_contribution(earliest, CONTRIBUTOR), 200);

    // the goal boundary itself completes: exactly the goal is enough
    launch.contribute(now + 10, latest, CONTRIBUTOR, 500, true).unwrap();
    launch.mark_project_failed(now + 365 * DAY + 1, latest).unwrap();
    assert_eq!(launch.get_project(latest).unwrap().status, ProjectStatus::Completed);
}

#[test]
fn contribution_request_names_the_transfer() {
    let mut launch = ProjectLaunch::new(small_config());
    let now: u64 = 1000;
    let deadline = now + 7 * DAY;
    let id = launch
        .create_project(now, CREATOR, 1000, deadline, TOKEN, b"hash".to_vec())
        .unwrap();

    let request = launch.contribution_request(now + 10, id, CONTRIBUTOR, 400).unwrap();
    assert_eq!(request.from, Party::Account(CONTRIBUTOR));
    assert_eq!(request.to, Party::Escrow);
    assert_eq!(request.token, TOKEN);
    assert_eq!(request.amount, 400);
}
