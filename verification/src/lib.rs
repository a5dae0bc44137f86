//! An escrow ledger for crowdfunding campaigns.
//!
//! Creators register a funding target and a deadline, contributors deposit
//! value into escrow, and after the deadline a one-time settlement decision
//! either completes the campaign (goal met) or fails it, after which each
//! contributor can be refunded their full cumulative deposit exactly once.
//!
//! The ledger is a pure state machine: the host that embeds it supplies the
//! current time as an argument, performs the value transfers the ledger asks
//! for, and reports each transfer's outcome back. Its core guarantees —
//! aggregate totals equal the sum of the per-contributor records, statuses
//! only move forward, the settlement decision runs at most once, refunds are
//! paid at most once — are stated in the operations' contracts and in the
//! public laws of [`ledger`], and proved.

pub mod accounts;
pub mod config;
pub mod errors;
pub mod ledger;
pub mod project;

pub use config::Config;
pub use errors::Error;
pub use ledger::ProjectLaunch;
pub use project::Event;
pub use project::Party;
pub use project::Project;
pub use project::ProjectStatus;
pub use project::TransferRequest;
