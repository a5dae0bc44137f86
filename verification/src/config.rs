//! The configured limits a ledger is created with.

use vstd::prelude::*;

verus! {

/// Default minimum funding goal: 1000 units of a seven-decimal asset.
pub const MIN_FUNDING_GOAL: i128 = 10_000_000_000;
/// Default minimum single contribution: 10 units of a seven-decimal asset.
pub const MIN_CONTRIBUTION: i128 = 100_000_000;
/// Default minimum campaign duration: one day, in seconds.
pub const MIN_PROJECT_DURATION: u64 = 86_400;
/// Default maximum campaign duration: one year, in seconds.
pub const MAX_PROJECT_DURATION: u64 = 31_536_000;

/// The validation limits of a ledger: the least acceptable funding goal and
/// contribution amount, and the window of acceptable campaign durations.
/// Fixed when the ledger is created.
#[derive(Copy, Clone, Debug, PartialEq, Eq, Structural)]
pub struct Config {
    /// A campaign's funding goal must be at least this.
    pub min_funding_goal: i128,
    /// Each single contribution must be at least this.
    pub min_contribution: i128,
    /// A campaign's deadline must lie at least this many seconds ahead of
    /// the time of creation.
    pub min_project_duration: u64,
    /// A campaign's deadline must lie at most this many seconds ahead of
    /// the time of creation.
    pub max_project_duration: u64,
}

impl Config {
    /// A usable configuration: contributions are strictly positive (so every
    /// transfer the ledger requests moves a positive amount), goals are not
    /// negative, and the duration window is non-empty with a positive lower
    /// bound (so a valid deadline is strictly in the future).
    pub open spec fn wf(self) -> bool {
        &&& 0 < self.min_contribution
        &&& 0 <= self.min_funding_goal
        &&& 0 < self.min_project_duration
        &&& self.min_project_duration <= self.max_project_duration
    }
}

impl Default for Config {
    /// The default limits.
    fn default() -> (c: Config)
        ensures
            c.wf(),
            c.min_funding_goal == MIN_FUNDING_GOAL,
            c.min_contribution == MIN_CONTRIBUTION,
            c.min_project_duration == MIN_PROJECT_DURATION,
            c.max_project_duration == MAX_PROJECT_DURATION,
    {
        Config {
            min_funding_goal: MIN_FUNDING_GOAL,
            min_contribution: MIN_CONTRIBUTION,
            min_project_duration: MIN_PROJECT_DURATION,
            max_project_duration: MAX_PROJECT_DURATION,
        }
    }
}

} // verus!
