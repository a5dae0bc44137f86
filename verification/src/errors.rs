//! The error taxonomy of the ledger.
//!
//! Every error is a discrete, recoverable result code: an operation that
//! returns one has left the ledger exactly as it was before the call.

use vstd::prelude::*;

verus! {

/// Why a ledger operation was rejected.
#[derive(Copy, Clone, Debug, PartialEq, Eq, Structural)]
pub enum Error {
    /// The admin identity was already set at bootstrap.
    AlreadyInitialized,
    /// The funding goal of a new campaign is below the configured minimum.
    InvalidFundingGoal,
    /// The deadline of a new campaign is not strictly in the future, or its
    /// distance from the current time lies outside the configured duration
    /// window.
    InvalidDeadline,
    /// A contribution amount is below the configured minimum.
    ContributionTooLow,
    /// No project exists under the given identifier.
    ProjectNotFound,
    /// The project is not in the status the operation needs: contributions
    /// need an active project, refunds a failed one.
    ProjectNotActive,
    /// The project's deadline has passed, so no further contributions are
    /// accepted.
    DeadlinePassed,
    /// Settlement was attempted on a project whose outcome is already
    /// decided.
    InvalidProjectStatus,
    /// Settlement before the deadline, a second refund for the same
    /// contributor, or a refund where nothing was contributed.
    InvalidInput,
    /// The value-transfer collaborator reported failure; none of the
    /// operation's writes survive, so a retry remains possible.
    TransferFailed,
}

} // verus!
