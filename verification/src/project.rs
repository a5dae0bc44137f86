//! Campaign records and the plain values that cross the ledger's boundary.
//!
//! Principals and asset identifiers are opaque to the ledger's rules, so they
//! are carried as plain numeric identifiers chosen by the embedding host.

use vstd::prelude::*;

verus! {

/// The lifecycle status of a campaign. A project starts `Active` and the
/// ledger's one-time settlement decision moves it to `Completed` or `Failed`;
/// no operation of this ledger ever moves a status back to `Active`, and none
/// moves one into `Cancelled`.
#[derive(Copy, Clone, Debug, PartialEq, Eq, Structural)]
pub enum ProjectStatus {
    /// Open for contributions until the deadline.
    Active,
    /// Settled with the funding goal met.
    Completed,
    /// Settled with the funding goal missed; contributors may be refunded.
    Failed,
    /// Withdrawn by a collaborator outside this ledger; never set here.
    Cancelled,
}

/// One campaign: its immutable parameters, its lifecycle status, and the
/// aggregate amount raised so far.
#[derive(Debug)]
pub struct Project {
    /// The principal that created the campaign.
    pub creator: u64,
    /// The minimum `total_raised` required for the campaign to complete.
    pub funding_goal: i128,
    /// The absolute time (seconds) after which contributions are rejected.
    pub deadline: u64,
    /// The fungible asset this campaign accepts.
    pub token: u64,
    /// Where the campaign stands in its lifecycle.
    pub status: ProjectStatus,
    /// Opaque pointer to an off-chain description; kept, never interpreted.
    pub metadata_hash: Vec<u8>,
    /// The sum of all accepted contributions; never negative, and always
    /// equal to the sum of the per-contributor records.
    pub total_raised: i128,
    /// The time (seconds) the campaign was created at.
    pub created_at: u64,
}

/// One side of a value transfer.
#[derive(Copy, Clone, Debug, PartialEq, Eq, Structural)]
pub enum Party {
    /// The escrow account that custodies contributed funds.
    Escrow,
    /// The account of the named principal.
    Account(u64),
}

/// A value transfer the ledger asks its host to perform: move `amount` of
/// asset `token` from `from` to `to`. The amount is always strictly positive.
#[derive(Copy, Clone, Debug, PartialEq, Eq, Structural)]
pub struct TransferRequest {
    /// The account the amount leaves.
    pub from: Party,
    /// The account the amount reaches.
    pub to: Party,
    /// The fungible asset to move.
    pub token: u64,
    /// How much to move; strictly positive.
    pub amount: i128,
}

/// An entry of the ledger's append-only event log, recording a state change
/// for outside observers. Events are never read back by the ledger itself.
#[derive(Copy, Clone, Debug, PartialEq, Eq, Structural)]
pub enum Event {
    /// A campaign was registered.
    ProjectCreated {
        /// The identifier the campaign was assigned.
        project_id: u64,
        /// The principal that created it.
        creator: u64,
        /// Its funding goal.
        funding_goal: i128,
        /// Its deadline.
        deadline: u64,
        /// The asset it accepts.
        token: u64,
    },
    /// A contribution was accepted and its transfer confirmed.
    ContributionMade {
        /// The campaign contributed to.
        project_id: u64,
        /// The contributing principal.
        contributor: u64,
        /// The amount of this contribution.
        amount: i128,
        /// The campaign's aggregate total after this contribution.
        total_raised: i128,
    },
    /// Settlement decided that a campaign missed its goal.
    ProjectFailed {
        /// The campaign that failed.
        project_id: u64,
    },
    /// A contributor's full cumulative deposit was paid back.
    RefundIssued {
        /// The campaign refunded from.
        project_id: u64,
        /// The refunded principal.
        contributor: u64,
        /// The amount paid back.
        amount: i128,
    },
}

} // verus!
