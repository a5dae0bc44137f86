//! Bootstrap, project creation and contribution accounting, driven the way
//! an embedding host drives the ledger: it asks for the transfer a
//! contribution entails, applies it to a toy token ledger, and reports the
//! outcome back.

use project_launch::config::MIN_CONTRIBUTION;
use project_launch::config::MIN_FUNDING_GOAL;
use project_launch::config::MIN_PROJECT_DURATION;
use project_launch::Config;
use project_launch::Party;
use project_launch::ProjectLaunch;
use project_launch::TransferRequest;

/// A toy token ledger standing in for the value-transfer collaborator.
struct Balances {
    escrow: i128,
    accounts: Vec<(u64, i128)>,
}

impl Balances {
    fn new() -> Balances {
        Balances { escrow: 0, accounts: Vec::new() }
    }

    fn mint(&mut self, who: u64, amount: i128) {
        for entry in self.accounts.iter_mut() {
            if entry.0 == who {
                entry.1 += amount;
                return;
            }
        }
        self.accounts.push((who, amount));
    }

    fn balance(&self, who: u64) -> i128 {
        for entry in self.accounts.iter() {
            if entry.0 == who {
                return entry.1;
            }
        }
        0
    }

    fn apply(&mut self, t: &TransferRequest) {
        match t.from {
            Party::Escrow => self.escrow -= t.amount,
            Party::Account(who) => self.mint(who, -t.amount),
        }
        match t.to {
            Party::Escrow => self.escrow += t.amount,
            Party::Account(who) => self.mint(who, t.amount),
        }
    }
}

const ADMIN: u64 = 1;
const CREATOR: u64 = 2;
const CONTRIBUTOR: u64 = 3;
const TOKEN: u64 = 100;

#[test]
fn test_initialize() {
    let mut launch = ProjectLaunch::new(Config::default());

    assert!(!launch.is_initialized());
    launch.initialize(ADMIN).unwrap();
    assert!(launch.is_initialized());
    assert_eq!(launch.get_admin(), Some(ADMIN));
}

#[test]
fn test_create_project() {
    let mut launch = ProjectLaunch::new(Config::default());
    launch.initialize(ADMIN).unwrap();

    let now: u64 = 1000000;

    // two days from now
    let deadline = 1000000 + MIN_PROJECT_DURATION + 86400;
    let project_id = launch
        .create_project(now, CREATOR, MIN_FUNDING_GOAL, deadline, TOKEN, b"QmHash123".to_vec())
        .unwrap();

    assert_eq!(project_id, 0);
    assert_eq!(launch.get_next_project_id(), 1);

    // invalid funding goal
    let result = launch.create_project(
        now,
        CREATOR,
        MIN_FUNDING_GOAL - 1,
        deadline,
        TOKEN,
        b"QmHash123".to_vec(),
    );
    assert!(result.is_err());

    // invalid deadline (too soon)
    let too_soon_deadline = 1000000 + MIN_PROJECT_DURATION - 1;
    let result = launch.create_project(
        now,
        CREATOR,
        MIN_FUNDING_GOAL,
        too_soon_deadline,
        TOKEN,
        b"QmHash123".to_vec(),
    );
    assert!(result.is_err());
}

#[test]
fn test_contribute() {
    let mut launch = ProjectLaunch::new(Config::default());
    launch.initialize(ADMIN).unwrap();
    let mut bank = Balances::new();

    let now: u64 = 1000000;
    let deadline = 1000000 + MIN_PROJECT_DURATION + 86400;
    let project_id = launch
        .create_project(now, CREATOR, MIN_FUNDING_GOAL, deadline, TOKEN, b"QmHash123".to_vec())
        .unwrap();

    bank.mint(CONTRIBUTOR, 100_0000000);

    assert_eq!(bank.balance(CONTRIBUTOR), 100_0000000);
    assert_eq!(bank.escrow, 0);

    // successful contribution
    let request = launch
        .contribution_request(now, project_id, CONTRIBUTOR, MIN_CONTRIBUTION)
        .unwrap();
    bank.apply(&request);
    launch.contribute(now, project_id, CONTRIBUTOR, MIN_CONTRIBUTION, true).unwrap();

    assert_eq!(bank.balance(CONTRIBUTOR), 90_0000000);
    assert_eq!(bank.escrow, 10_0000000);

    assert_eq!(
        launch.get_user_contribution(project_id, CONTRIBUTOR),
        MIN_CONTRIBUTION
    );

    // multiple contributions from the same user accumulate
    let request = launch
        .contribution_request(now, project_id, CONTRIBUTOR, MIN_CONTRIBUTION)
        .unwrap();
    bank.apply(&request);
    launch.contribute(now, project_id, CONTRIBUTOR, MIN_CONTRIBUTION, true).unwrap();
    assert_eq!(
        launch.get_user_contribution(project_id, CONTRIBUTOR),
        MIN_CONTRIBUTION * 2
    );

    // contribution too low
    let result = launch.contribute(now, project_id, CONTRIBUTOR, MIN_CONTRIBUTION - 1, true);
    assert!(result.is_err());

    // contribution to a non-existent project
    let result = launch.contribute(now, 999, CONTRIBUTOR, MIN_CONTRIBUTION, true);
    assert!(result.is_err());

    // contribution after the deadline
    let result = launch.contribute(deadline + 1, project_id, CONTRIBUTOR, MIN_CONTRIBUTION, true);
    assert!(result.is_err());
}
