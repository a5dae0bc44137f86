//! The escrow ledger: project records, contribution accounting, and the
//! one-time settlement and refund machinery.
//!
//! The ledger is pure state: the embedding host reads the clock and passes
//! the current time in, confirms a contributor's consent before calling
//! `contribute`, performs the value transfers described by
//! [`ProjectLaunch::contribution_request`] and
//! [`ProjectLaunch::refund_request`], and reports each transfer's outcome
//! through the `transfer_ok` argument of the mutating call. An operation that
//! returns an error leaves the ledger exactly as it was.

use vstd::prelude::*;

use crate::accounts::ContribEntry;
use crate::accounts::amount_of;
use crate::accounts::entries_wf;
use crate::accounts::has_entry;
use crate::accounts::sum_amounts;
use crate::accounts::lemma_amount_absent;
use crate::accounts::lemma_amount_at;
use crate::accounts::lemma_amount_le_sum;
use crate::accounts::lemma_push_amount;
use crate::accounts::lemma_push_wf;
use crate::accounts::lemma_sum_nonneg;
use crate::accounts::lemma_update_amount;
use crate::config::Config;
use crate::errors::Error;
use crate::project::Event;
use crate::project::Party;
use crate::project::Project;
use crate::project::ProjectStatus;
use crate::project::TransferRequest;

verus! {

/// The escrow ledger over all campaigns: the admin identity, the sequence
/// counter, and per campaign its record, its per-contributor cumulative
/// contributions, its refund-issued markers, its failure-processed marker,
/// and an append-only event log.
pub struct ProjectLaunch {
    config: Config,
    admin: Option<u64>,
    next_project_id: u64,
    projects: Vec<Project>,
    contributions: Vec<Vec<ContribEntry>>,
    refunded: Vec<Vec<u64>>,
    failure_processed: Vec<bool>,
    events: Vec<Event>,
}

impl ProjectLaunch {
    /// The limits this ledger was created with.
    pub closed spec fn spec_config(self) -> Config {
        self.config
    }

    /// The admin identity, if bootstrap has happened.
    pub closed spec fn spec_admin(self) -> Option<u64> {
        self.admin
    }

    /// The identifier the next created project will get.
    pub closed spec fn spec_next_id(self) -> u64 {
        self.next_project_id
    }

    /// Whether a project exists under this identifier.
    pub closed spec fn has_project(self, pid: u64) -> bool {
        (pid as int) < self.projects@.len()
    }

    /// The record of the project under this identifier.
    pub closed spec fn spec_project(self, pid: u64) -> Project {
        self.projects@[pid as int]
    }

    /// The per-contributor cumulative contribution records of a project.
    pub closed spec fn spec_contributions(self, pid: u64) -> Seq<ContribEntry> {
        self.contributions@[pid as int]@
    }

    /// The cumulative amount this contributor has deposited into this
    /// project; zero for an unknown project or a contributor without a
    /// record.
    pub open spec fn spec_user_contribution(self, pid: u64, c: u64) -> int {
        if self.has_project(pid) {
            amount_of(self.spec_contributions(pid), c)
        } else {
            0
        }
    }

    /// Whether a refund was issued to this contributor for this project.
    pub closed spec fn spec_refunded(self, pid: u64, c: u64) -> bool {
        self.has_project(pid) && self.refunded@[pid as int]@.contains(c)
    }

    /// Whether the settlement decision for this project has run.
    pub closed spec fn spec_failure_processed(self, pid: u64) -> bool {
        self.has_project(pid) && self.failure_processed@[pid as int]
    }

    /// The event log, oldest first.
    pub closed spec fn spec_events(self) -> Seq<Event> {
        self.events@
    }

    /// The ledger's invariant, established by [`ProjectLaunch::new`] and
    /// preserved by every operation: the sequence counter counts the existing
    /// projects; every project's contribution records are well formed and
    /// their sum is exactly the project's `total_raised`, which is never
    /// negative; a project is `Active` exactly until its settlement decision
    /// has run; and no project is ever `Cancelled` by this ledger.
    pub closed spec fn wf(self) -> bool {
        &&& self.config.wf()
        &&& self.projects@.len() == self.next_project_id as int
        &&& self.contributions@.len() == self.projects@.len()
        &&& self.refunded@.len() == self.projects@.len()
        &&& self.failure_processed@.len() == self.projects@.len()
        &&& forall|i: int|
            0 <= i < self.projects@.len() ==> entries_wf(#[trigger] self.contributions@[i]@)
        &&& forall|i: int|
            0 <= i < self.projects@.len() ==> (#[trigger] self.projects@[i]).total_raised
                == sum_amounts(self.contributions@[i]@)
        &&& forall|i: int|
            0 <= i < self.projects@.len() ==> (#[trigger] self.projects@[i]).total_raised >= 0
        &&& forall|i: int|
            0 <= i < self.projects@.len() ==> ((#[trigger] self.projects@[i]).status
                is Active <==> !self.failure_processed@[i])
        &&& forall|i: int|
            0 <= i < self.projects@.len() ==> !((#[trigger] self.projects@[i]).status
                is Cancelled)
    }

    /// An empty ledger under the given limits: nothing bootstrapped, no
    /// projects, no events.
    pub fn new(config: Config) -> (l: ProjectLaunch)
        requires
            config.wf(),
        ensures
            l.wf(),
            l.spec_config() == config,
            l.spec_admin() is None,
            l.spec_next_id() == 0,
            forall|pid: u64| !l.has_project(pid),
            l.spec_events().len() == 0,
    {
        ProjectLaunch {
            config,
            admin: None,
            next_project_id: 0,
            projects: Vec::new(),
            contributions: Vec::new(),
            refunded: Vec::new(),
            failure_processed: Vec::new(),
            events: Vec::new(),
        }
    }

    /// Bootstrap: set the admin identity, exactly once. Fails with
    /// `AlreadyInitialized`, changing nothing, when an admin is already set;
    /// otherwise records the admin and changes nothing else. The embedding
    /// host confirms the admin's consent before calling.
    pub fn initialize(&mut self, admin: u64) -> (r: Result<(), Error>)
        requires
            old(self).wf(),
        ensures
            final(self).wf(),
            final(self).spec_config() == old(self).spec_config(),
            old(self).spec_admin() is Some ==> r == Err::<(), Error>(Error::AlreadyInitialized)
                && *final(self) == *old(self),
            old(self).spec_admin() is None ==> r == Ok::<(), Error>(())
                && final(self).spec_admin() == Some(admin)
                && same_campaign_state(*old(self), *final(self))
                && final(self).spec_events() == old(self).spec_events(),
    {
        if self.admin.is_some() {
            return Err(Error::AlreadyInitialized);
        }
        self.admin = Some(admin);
        Ok(())
    }

    /// Whether bootstrap has happened.
    pub fn is_initialized(&self) -> (r: bool)
        ensures
            r == (self.spec_admin() is Some),
    {
        self.admin.is_some()
    }

    /// The admin identity, if bootstrap has happened.
    pub fn get_admin(&self) -> (r: Option<u64>)
        ensures
            r == self.spec_admin(),
    {
        self.admin
    }

    /// The identifier the next created project will get.
    pub fn get_next_project_id(&self) -> (r: u64)
        ensures
            r == self.spec_next_id(),
    {
        self.next_project_id
    }

    /// Why a creation with these parameters is rejected, or `None` when it
    /// is accepted: the goal must reach the configured minimum, and the
    /// deadline's distance from `now` must lie within the configured
    /// duration window and be strictly in the future.
    pub open spec fn create_error(self, now: u64, funding_goal: i128, deadline: u64) -> Option<
        Error,
    > {
        let duration = if deadline >= now {
            deadline - now
        } else {
            0
        };
        if funding_goal < self.spec_config().min_funding_goal {
            Some(Error::InvalidFundingGoal)
        } else if duration < self.spec_config().min_project_duration || duration
            > self.spec_config().max_project_duration {
            Some(Error::InvalidDeadline)
        } else if deadline <= now {
            Some(Error::InvalidDeadline)
        } else {
            None
        }
    }

    /// Register a new campaign. Validation runs before any state change, so a
    /// rejected creation burns no sequence number: the goal must reach the
    /// configured minimum (`InvalidFundingGoal`), and the deadline must lie
    /// within the configured duration window from `now` and strictly in the
    /// future (`InvalidDeadline`). On success the project gets the next
    /// sequential identifier, starts `Active` with nothing raised, and a
    /// creation event is logged. The embedding host confirms the creator's
    /// consent before calling.
    pub fn create_project(
        &mut self,
        now: u64,
        creator: u64,
        funding_goal: i128,
        deadline: u64,
        token: u64,
        metadata_hash: Vec<u8>,
    ) -> (r: Result<u64, Error>)
        requires
            old(self).wf(),
            old(self).create_error(now, funding_goal, deadline) is None ==> old(
                self,
            ).spec_next_id() < u64::MAX,
        ensures
            final(self).wf(),
            final(self).spec_config() == old(self).spec_config(),
            final(self).spec_admin() == old(self).spec_admin(),
            match old(self).create_error(now, funding_goal, deadline) {
                Some(e) => r == Err::<u64, Error>(e) && *final(self) == *old(self),
                None => r == Ok::<u64, Error>(old(self).spec_next_id()) && create_commit(
                    *old(self),
                    *final(self),
                    now,
                    creator,
                    funding_goal,
                    deadline,
                    token,
                    metadata_hash@,
                ),
            },
    {
        if funding_goal < self.config.min_funding_goal {
            return Err(Error::InvalidFundingGoal);
        }
        let duration = if deadline >= now {
            deadline - now
        } else {
            0
        };
        if duration < self.config.min_project_duration || duration
            > self.config.max_project_duration {
            return Err(Error::InvalidDeadline);
        }
        if deadline <= now {
            return Err(Error::InvalidDeadline);
        }
        let project_id = self.next_project_id;
        self.next_project_id = project_id + 1;
        let project = Project {
            creator,
            funding_goal,
            deadline,
            token,
            status: ProjectStatus::Active,
            metadata_hash,
            total_raised: 0,
            created_at: now,
        };
        self.projects.push(project);
        self.contributions.push(Vec::new());
        self.refunded.push(Vec::new());
        self.failure_processed.push(false);
        self.events.push(
            Event::ProjectCreated { project_id, creator, funding_goal, deadline, token },
        );
        Ok(project_id)
    }

    /// Why a contribution is rejected, or `None` when it is accepted: the
    /// amount must reach the configured minimum, the project must exist and
    /// be `Active`, and the deadline must not have been reached.
    pub open spec fn contribute_error(self, now: u64, pid: u64, amount: i128) -> Option<Error> {
        if amount < self.spec_config().min_contribution {
            Some(Error::ContributionTooLow)
        } else if !self.has_project(pid) {
            Some(Error::ProjectNotFound)
        } else if !(self.spec_project(pid).status is Active) {
            Some(Error::ProjectNotActive)
        } else if now >= self.spec_project(pid).deadline {
            Some(Error::DeadlinePassed)
        } else {
            None
        }
    }

    /// The inbound value transfer a contribution entails: the amount moves
    /// from the contributor's account into escrow, in the project's token.
    /// Fails exactly when [`ProjectLaunch::contribute`] would reject the
    /// contribution; a pure read.
    pub fn contribution_request(&self, now: u64, project_id: u64, contributor: u64, amount: i128)
        -> (r: Result<TransferRequest, Error>)
        requires
            self.wf(),
        ensures
            match r {
                Ok(t) => self.contribute_error(now, project_id, amount) is None && t
                    == (TransferRequest {
                    from: Party::Account(contributor),
                    to: Party::Escrow,
                    token: self.spec_project(project_id).token,
                    amount,
                }),
                Err(e) => self.contribute_error(now, project_id, amount) == Some(e),
            },
    {
        if amount < self.config.min_contribution {
            return Err(Error::ContributionTooLow);
        }
        let n: usize = self.projects.len();
        if project_id >= n as u64 {
            return Err(Error::ProjectNotFound);
        }
        let idx = project_id as usize;
        if self.projects[idx].status != ProjectStatus::Active {
            return Err(Error::ProjectNotActive);
        }
        if now >= self.projects[idx].deadline {
            return Err(Error::DeadlinePassed);
        }
        Ok(
            TransferRequest {
                from: Party::Account(contributor),
                to: Party::Escrow,
                token: self.projects[idx].token,
                amount,
            },
        )
    }

    /// Record a contribution. The embedding host confirms the contributor's
    /// consent, performs the transfer described by
    /// [`ProjectLaunch::contribution_request`], and reports its outcome as
    /// `transfer_ok`. Validation errors come exactly as
    /// [`ProjectLaunch::contribute_error`] says, with nothing changed; a
    /// failed transfer aborts the operation with `TransferFailed` and nothing
    /// changed, so a retry remains possible. On success the project's total
    /// and the contributor's cumulative record both grow by `amount`, nothing
    /// else changes, and a contribution event is logged. Repeated calls
    /// accumulate; overfunding past the goal is permitted.
    pub fn contribute(
        &mut self,
        now: u64,
        project_id: u64,
        contributor: u64,
        amount: i128,
        transfer_ok: bool,
    ) -> (r: Result<(), Error>)
        requires
            old(self).wf(),
            old(self).contribute_error(now, project_id, amount) is None ==> old(self).spec_project(
                project_id,
            ).total_raised + amount <= i128::MAX,
        ensures
            final(self).wf(),
            final(self).spec_config() == old(self).spec_config(),
            final(self).spec_admin() == old(self).spec_admin(),
            match old(self).contribute_error(now, project_id, amount) {
                Some(e) => r == Err::<(), Error>(e) && *final(self) == *old(self),
                None => if transfer_ok {
                    r == Ok::<(), Error>(()) && contribute_commit(
                        *old(self),
                        *final(self),
                        project_id,
                        contributor,
                        amount,
                    )
                } else {
                    r == Err::<(), Error>(Error::TransferFailed) && *final(self) == *old(self)
                },
            },
    {
        if amount < self.config.min_contribution {
            return Err(Error::ContributionTooLow);
        }
        let n: usize = self.projects.len();
        if project_id >= n as u64 {
            return Err(Error::ProjectNotFound);
        }
        let idx = project_id as usize;
        if self.projects[idx].status != ProjectStatus::Active {
            return Err(Error::ProjectNotActive);
        }
        if now >= self.projects[idx].deadline {
            return Err(Error::DeadlinePassed);
        }
        if !transfer_ok {
            return Err(Error::TransferFailed);
        }
        let ghost pre = *self;

        let mut project = self.projects.remove(idx);
        let new_total = project.total_raised + amount;
        project.total_raised = new_total;
        self.projects.insert(idx, project);
        proof {
            assert(self.projects@ =~= pre.projects@.update(
                idx as int,
                Project { total_raised: new_total, ..pre.projects@[idx as int] },
            ));
        }

        let mut entries = self.contributions.remove(idx);
        match find_entry(&entries, contributor) {
            Some(j) => {
                let e = entries[j];
                proof {
                    lemma_amount_at(entries@, j as int);
                    lemma_amount_le_sum(entries@, contributor);
                }
                let updated = ContribEntry { contributor, amount: e.amount + amount };
                entries.set(j, updated);
                proof {
                    lemma_update_amount(
                        pre.contributions@[idx as int]@,
                        j as int,
                        amount as int,
                        updated,
                    );
                }
            },
            None => {
                let entry = ContribEntry { contributor, amount };
                proof {
                    lemma_amount_absent(entries@, contributor);
                    lemma_sum_nonneg(entries@);
                    lemma_push_amount(entries@, entry);
                    lemma_push_wf(entries@, entry);
                }
                entries.push(entry);
            },
        }
        self.contributions.insert(idx, entries);
        proof {
            assert(self.contributions@.len() == pre.contributions@.len());
            assert(forall|i: int|
                0 <= i < self.contributions@.len() && i != idx as int
                    ==> self.contributions@[i] == pre.contributions@[i]);
        }

        self.events.push(
            Event::ContributionMade { project_id, contributor, amount, total_raised: new_total },
        );
        Ok(())
    }

    /// The record of a project. Fails with `ProjectNotFound` for an unknown
    /// identifier; a pure read either way.
    pub fn get_project(&self, project_id: u64) -> (r: Result<&Project, Error>)
        requires
            self.wf(),
        ensures
            match r {
                Ok(p) => self.has_project(project_id) && *p == self.spec_project(project_id),
                Err(e) => !self.has_project(project_id) && e == Error::ProjectNotFound,
            },
    {
        let n: usize = self.projects.len();
        if project_id >= n as u64 {
            return Err(Error::ProjectNotFound);
        }
        let idx = project_id as usize;
        Ok(&self.projects[idx])
    }

    /// The cumulative amount this contributor has deposited into this
    /// project: zero for an unknown project or a contributor that never
    /// contributed. A pure read, open to anyone.
    pub fn get_user_contribution(&self, project_id: u64, contributor: u64) -> (amount: i128)
        requires
            self.wf(),
        ensures
            amount == self.spec_user_contribution(project_id, contributor),
    {
        let n: usize = self.contributions.len();
        if project_id >= n as u64 {
            return 0;
        }
        let idx = project_id as usize;
        let entries = &self.contributions[idx];
        match find_entry(entries, contributor) {
            Some(j) => {
                proof {
                    lemma_amount_at(entries@, j as int);
                }
                entries[j].amount
            },
            None => {
                proof {
                    lemma_amount_absent(entries@, contributor);
                }
                0
            },
        }
    }

    /// Why a refund attempt is rejected, or `None` when the payout goes
    /// ahead: the project must exist and stand `Failed` — refunds are never
    /// available for `Active`, `Completed` or `Cancelled` projects
    /// (`ProjectNotActive`) — the contributor must not have been refunded
    /// before, and must have something recorded to refund (`InvalidInput`).
    pub open spec fn refund_error(self, pid: u64, c: u64) -> Option<Error> {
        if !self.has_project(pid) {
            Some(Error::ProjectNotFound)
        } else if !(self.spec_project(pid).status is Failed) {
            Some(Error::ProjectNotActive)
        } else if self.spec_refunded(pid, c) {
            Some(Error::InvalidInput)
        } else if self.spec_user_contribution(pid, c) <= 0 {
            Some(Error::InvalidInput)
        } else {
            None
        }
    }

    /// The outbound value transfer a refund entails: the contributor's full
    /// cumulative deposit moves from escrow back to the contributor, in the
    /// project's token. Fails exactly when
    /// [`ProjectLaunch::refund_contributor`] would reject the refund; a pure
    /// read.
    pub fn refund_request(&self, project_id: u64, contributor: u64) -> (r: Result<
        TransferRequest,
        Error,
    >)
        requires
            self.wf(),
        ensures
            match r {
                Ok(t) => self.refund_error(project_id, contributor) is None && t
                    == (TransferRequest {
                    from: Party::Escrow,
                    to: Party::Account(contributor),
                    token: self.spec_project(project_id).token,
                    amount: self.spec_user_contribution(project_id, contributor) as i128,
                }),
                Err(e) => self.refund_error(project_id, contributor) == Some(e),
            },
    {
        let n: usize = self.projects.len();
        if project_id >= n as u64 {
            return Err(Error::ProjectNotFound);
        }
        let idx = project_id as usize;
        if self.projects[idx].status != ProjectStatus::Failed {
            return Err(Error::ProjectNotActive);
        }
        if contains_principal(&self.refunded[idx], contributor) {
            return Err(Error::InvalidInput);
        }
        let amount = self.get_user_contribution(project_id, contributor);
        if amount <= 0 {
            return Err(Error::InvalidInput);
        }
        Ok(
            TransferRequest {
                from: Party::Escrow,
                to: Party::Account(contributor),
                token: self.projects[idx].token,
                amount,
            },
        )
    }

    /// Pay a contributor back after a failed campaign. Permissionless: the
    /// refund always moves the full recorded cumulative deposit to the
    /// recorded contributor, so anyone may trigger it. The embedding host
    /// performs the transfer described by [`ProjectLaunch::refund_request`]
    /// and reports its outcome as `transfer_ok`. Errors come exactly as
    /// [`ProjectLaunch::refund_error`] says, with nothing changed; a failed
    /// transfer aborts with `TransferFailed` and no marker set, so a retry
    /// remains possible. On success the refund-issued marker for this
    /// contributor is set — permanently, so a second refund can never
    /// happen — a refund event is logged, nothing else changes (the
    /// contribution record itself stays, the marker alone gates reuse), and
    /// the refunded amount is returned.
    pub fn refund_contributor(&mut self, project_id: u64, contributor: u64, transfer_ok: bool)
        -> (r: Result<i128, Error>)
        requires
            old(self).wf(),
        ensures
            final(self).wf(),
            final(self).spec_config() == old(self).spec_config(),
            final(self).spec_admin() == old(self).spec_admin(),
            match old(self).refund_error(project_id, contributor) {
                Some(e) => r == Err::<i128, Error>(e) && *final(self) == *old(self),
                None => if transfer_ok {
                    r == Ok::<i128, Error>(
                        old(self).spec_user_contribution(project_id, contributor) as i128,
                    ) && refund_commit(*old(self), *final(self), project_id, contributor)
                } else {
                    r == Err::<i128, Error>(Error::TransferFailed) && *final(self) == *old(self)
                },
            },
    {
        let n: usize = self.projects.len();
        if project_id >= n as u64 {
            return Err(Error::ProjectNotFound);
        }
        let idx = project_id as usize;
        if self.projects[idx].status != ProjectStatus::Failed {
            return Err(Error::ProjectNotActive);
        }
        if contains_principal(&self.refunded[idx], contributor) {
            return Err(Error::InvalidInput);
        }
        let amount = self.get_user_contribution(project_id, contributor);
        if amount <= 0 {
            return Err(Error::InvalidInput);
        }
        if !transfer_ok {
            return Err(Error::TransferFailed);
        }
        let ghost pre = *self;

        let mut marked = self.refunded.remove(idx);
        marked.push(contributor);
        self.refunded.insert(idx, marked);
        self.events.push(Event::RefundIssued { project_id, contributor, amount });
        proof {
            assert(self.refunded@ =~= pre.refunded@.update(
                idx as int,
                self.refunded@[idx as int],
            ));
            assert(self.refunded@[idx as int]@ == pre.refunded@[idx as int]@.push(contributor));
            assert(self.refunded@[idx as int]@.last() == contributor);
            assert(self.refunded@[idx as int]@.contains(contributor));
            assert forall|q: u64, c: u64|
                !(q == project_id && c == contributor) implies #[trigger] self.spec_refunded(q, c)
                == pre.spec_refunded(q, c) by {
                if q == project_id {
                    let s = pre.refunded@[idx as int]@;
                    assert(self.refunded@[idx as int]@ == s.push(contributor));
                    if s.contains(c) {
                        let w = choose|j: int| 0 <= j < s.len() && s[j] == c;
                        assert(s.push(contributor)[w] == c);
                    }
                    if s.push(contributor).contains(c) {
                        let w = choose|j: int|
                            0 <= j < s.push(contributor).len() && s.push(contributor)[j] == c;
                        assert(w < s.len());
                        assert(s[w] == c);
                    }
                }
            }
        }
        Ok(amount)
    }

    /// Whether a refund was issued to this contributor for this project.
    /// False for an unknown project.
    pub fn is_refunded(&self, project_id: u64, contributor: u64) -> (r: bool)
        requires
            self.wf(),
        ensures
            r == self.spec_refunded(project_id, contributor),
    {
        let n: usize = self.refunded.len();
        if project_id >= n as u64 {
            return false;
        }
        let idx = project_id as usize;
        contains_principal(&self.refunded[idx], contributor)
    }

    /// Why a settlement attempt is rejected, or `None` when the decision
    /// runs: the project must exist, its deadline must lie strictly in the
    /// past (`InvalidInput` while it is too early), and the decision must not
    /// have run before — a terminal status, like an already-set
    /// failure-processed marker, is a conflict (`InvalidProjectStatus`).
    pub open spec fn settle_error(self, now: u64, pid: u64) -> Option<Error> {
        if !self.has_project(pid) {
            Some(Error::ProjectNotFound)
        } else if now <= self.spec_project(pid).deadline {
            Some(Error::InvalidInput)
        } else if self.spec_project(pid).status is Failed || self.spec_project(pid).status
            is Completed {
            Some(Error::InvalidProjectStatus)
        } else if self.spec_failure_processed(pid) {
            Some(Error::InvalidProjectStatus)
        } else {
            None
        }
    }

    /// The outcome the settlement decision assigns: `Completed` when the
    /// total raised reached the goal, `Failed` otherwise.
    pub open spec fn settle_outcome(self, pid: u64) -> ProjectStatus {
        if self.spec_project(pid).total_raised >= self.spec_project(pid).funding_goal {
            ProjectStatus::Completed
        } else {
            ProjectStatus::Failed
        }
    }

    /// Run the settlement decision for a project whose deadline has passed:
    /// compare the total raised against the goal, move the status from
    /// `Active` to `Completed` (goal met) or `Failed` (goal missed, with a
    /// failure event logged), and set the failure-processed marker so the
    /// decision can never run again. Permissionless and callable any number
    /// of times, but effective at most once: errors come exactly as
    /// [`ProjectLaunch::settle_error`] says, with nothing changed. Completion
    /// transfers nothing; refunds become available only after a `Failed`
    /// outcome.
    pub fn mark_project_failed(&mut self, now: u64, project_id: u64) -> (r: Result<(), Error>)
        requires
            old(self).wf(),
        ensures
            final(self).wf(),
            final(self).spec_config() == old(self).spec_config(),
            final(self).spec_admin() == old(self).spec_admin(),
            match old(self).settle_error(now, project_id) {
                Some(e) => r == Err::<(), Error>(e) && *final(self) == *old(self),
                None => r == Ok::<(), Error>(()) && settle_commit(
                    *old(self),
                    *final(self),
                    project_id,
                ),
            },
    {
        let n: usize = self.projects.len();
        if project_id >= n as u64 {
            return Err(Error::ProjectNotFound);
        }
        let idx = project_id as usize;
        if now <= self.projects[idx].deadline {
            return Err(Error::InvalidInput);
        }
        if self.projects[idx].status == ProjectStatus::Failed || self.projects[idx].status
            == ProjectStatus::Completed {
            return Err(Error::InvalidProjectStatus);
        }
        if self.failure_processed[idx] {
            return Err(Error::InvalidProjectStatus);
        }
        let ghost pre = *self;

        let mut project = self.projects.remove(idx);
        let failed = project.total_raised < project.funding_goal;
        project.status = if failed {
            ProjectStatus::Failed
        } else {
            ProjectStatus::Completed
        };
        self.projects.insert(idx, project);
        proof {
            assert(self.projects@ =~= pre.projects@.update(
                idx as int,
                Project { status: pre.settle_outcome(project_id), ..pre.projects@[idx as int] },
            ));
        }
        self.failure_processed.set(idx, true);
        if failed {
            self.events.push(Event::ProjectFailed { project_id });
        }
        Ok(())
    }

    /// The event log, oldest first: one entry per accepted creation,
    /// contribution, failure decision and refund.
    pub fn event_log(&self) -> (r: &Vec<Event>)
        ensures
            r@ == self.spec_events(),
    {
        &self.events
    }

    /// Whether the settlement decision for this project has run. False for an
    /// unknown project.
    pub fn is_failure_processed(&self, project_id: u64) -> (r: bool)
        requires
            self.wf(),
        ensures
            r == self.spec_failure_processed(project_id),
    {
        let n: usize = self.failure_processed.len();
        if project_id >= n as u64 {
            return false;
        }
        let idx = project_id as usize;
        self.failure_processed[idx]
    }
}

/// The position of this contributor's record, if one exists.
fn find_entry(entries: &Vec<ContribEntry>, c: u64) -> (r: Option<usize>)
    ensures
        match r {
            Some(j) => j < entries@.len() && entries@[j as int].contributor == c,
            None => !has_entry(entries@, c),
        },
{
    let mut i: usize = 0;
    while i < entries.len()
        invariant
            i <= entries@.len(),
            forall|j: int| 0 <= j < i ==> (#[trigger] entries@[j]).contributor != c,
        decreases entries@.len() - i,
    {
        if entries[i].contributor == c {
            return Some(i);
        }
        i = i + 1;
    }
    None
}

/// Whether this principal occurs in the list.
fn contains_principal(v: &Vec<u64>, c: u64) -> (r: bool)
    ensures
        r == v@.contains(c),
{
    let mut i: usize = 0;
    while i < v.len()
        invariant
            i <= v@.len(),
            forall|j: int| 0 <= j < i ==> v@[j] != c,
        decreases v@.len() - i,
    {
        if v[i] == c {
            return true;
        }
        i = i + 1;
    }
    false
}

/// What a successful creation did: `post` is `pre` with one more project,
/// under the identifier `pre`'s counter held ready, carrying exactly the
/// given parameters, `Active`, with nothing raised, no contribution records,
/// no markers; every pre-existing project is untouched, and a creation event
/// was logged.
pub open spec fn create_commit(
    pre: ProjectLaunch,
    post: ProjectLaunch,
    now: u64,
    creator: u64,
    funding_goal: i128,
    deadline: u64,
    token: u64,
    metadata: Seq<u8>,
) -> bool {
    let id = pre.spec_next_id();
    &&& post.spec_next_id() == pre.spec_next_id() + 1
    &&& post.has_project(id)
    &&& post.spec_project(id).creator == creator
    &&& post.spec_project(id).funding_goal == funding_goal
    &&& post.spec_project(id).deadline == deadline
    &&& post.spec_project(id).token == token
    &&& post.spec_project(id).status is Active
    &&& post.spec_project(id).metadata_hash@ == metadata
    &&& post.spec_project(id).total_raised == 0
    &&& post.spec_project(id).created_at == now
    &&& post.spec_contributions(id).len() == 0
    &&& !post.spec_failure_processed(id)
    &&& forall|c: u64| !post.spec_refunded(id, c)
    &&& forall|pid: u64| pid != id ==> post.has_project(pid) == pre.has_project(pid)
    &&& forall|pid: u64|
        pre.has_project(pid) ==> #[trigger] post.spec_project(pid) == pre.spec_project(pid)
    &&& forall|pid: u64|
        pre.has_project(pid) ==> #[trigger] post.spec_contributions(pid)
            == pre.spec_contributions(pid)
    &&& forall|pid: u64, c: u64|
        pid != id ==> #[trigger] post.spec_refunded(pid, c) == pre.spec_refunded(pid, c)
    &&& forall|pid: u64|
        pid != id ==> #[trigger] post.spec_failure_processed(pid) == pre.spec_failure_processed(
            pid,
        )
    &&& post.spec_events() == pre.spec_events().push(
        Event::ProjectCreated { project_id: id, creator, funding_goal, deadline, token },
    )
}

/// What an accepted contribution did: the project's `total_raised` and the
/// contributor's cumulative record both grew by exactly `amount`; every other
/// field of the project, every other contributor's record, every other
/// project, all markers and the counter are untouched; and a contribution
/// event was logged.
pub open spec fn contribute_commit(
    pre: ProjectLaunch,
    post: ProjectLaunch,
    pid: u64,
    contributor: u64,
    amount: i128,
) -> bool {
    &&& post.spec_next_id() == pre.spec_next_id()
    &&& forall|q: u64| post.has_project(q) == pre.has_project(q)
    &&& post.spec_project(pid) == (Project {
        total_raised: (pre.spec_project(pid).total_raised + amount) as i128,
        ..pre.spec_project(pid)
    })
    &&& post.spec_user_contribution(pid, contributor) == pre.spec_user_contribution(
        pid,
        contributor,
    ) + amount
    &&& forall|q: u64, c: u64|
        !(q == pid && c == contributor) ==> #[trigger] post.spec_user_contribution(q, c)
            == pre.spec_user_contribution(q, c)
    &&& forall|q: u64|
        pre.has_project(q) && q != pid ==> #[trigger] post.spec_project(q) == pre.spec_project(q)
    &&& forall|q: u64|
        pre.has_project(q) && q != pid ==> #[trigger] post.spec_contributions(q)
            == pre.spec_contributions(q)
    &&& forall|q: u64, c: u64|
        #[trigger] post.spec_refunded(q, c) == pre.spec_refunded(q, c)
    &&& forall|q: u64|
        #[trigger] post.spec_failure_processed(q) == pre.spec_failure_processed(q)
    &&& post.spec_events() == pre.spec_events().push(
        Event::ContributionMade {
            project_id: pid,
            contributor,
            amount,
            total_raised: (pre.spec_project(pid).total_raised + amount) as i128,
        },
    )
}

/// What a settlement decision did: the project moved from `Active` to
/// [`ProjectLaunch::settle_outcome`] with every other field untouched, its
/// failure-processed marker is now set, a failure event was logged exactly
/// when the outcome is `Failed`, and nothing else changed — no totals, no
/// contribution records, no refund markers, no other project.
pub open spec fn settle_commit(pre: ProjectLaunch, post: ProjectLaunch, pid: u64) -> bool {
    &&& post.spec_next_id() == pre.spec_next_id()
    &&& forall|q: u64| post.has_project(q) == pre.has_project(q)
    &&& post.spec_project(pid) == (Project {
        status: pre.settle_outcome(pid),
        ..pre.spec_project(pid)
    })
    &&& post.spec_failure_processed(pid)
    &&& forall|q: u64|
        pre.has_project(q) && q != pid ==> #[trigger] post.spec_project(q) == pre.spec_project(q)
    &&& forall|q: u64|
        pre.has_project(q) ==> #[trigger] post.spec_contributions(q) == pre.spec_contributions(q)
    &&& forall|q: u64, c: u64|
        #[trigger] post.spec_refunded(q, c) == pre.spec_refunded(q, c)
    &&& forall|q: u64|
        q != pid ==> #[trigger] post.spec_failure_processed(q) == pre.spec_failure_processed(q)
    &&& post.spec_events() == if pre.settle_outcome(pid) is Failed {
        pre.spec_events().push(Event::ProjectFailed { project_id: pid })
    } else {
        pre.spec_events()
    }
}

/// What a completed refund did: the refund-issued marker for this
/// contributor is now set, a refund event carrying the full recorded amount
/// was logged, and nothing else changed — no project record, no contribution
/// record, no other marker, not even this contributor's recorded amount,
/// whose reuse the marker alone prevents.
pub open spec fn refund_commit(
    pre: ProjectLaunch,
    post: ProjectLaunch,
    pid: u64,
    contributor: u64,
) -> bool {
    &&& post.spec_next_id() == pre.spec_next_id()
    &&& forall|q: u64| post.has_project(q) == pre.has_project(q)
    &&& forall|q: u64|
        pre.has_project(q) ==> #[trigger] post.spec_project(q) == pre.spec_project(q)
    &&& forall|q: u64|
        pre.has_project(q) ==> #[trigger] post.spec_contributions(q) == pre.spec_contributions(q)
    &&& post.spec_refunded(pid, contributor)
    &&& forall|q: u64, c: u64|
        !(q == pid && c == contributor) ==> #[trigger] post.spec_refunded(q, c)
            == pre.spec_refunded(q, c)
    &&& forall|q: u64|
        #[trigger] post.spec_failure_processed(q) == pre.spec_failure_processed(q)
    &&& post.spec_events() == pre.spec_events().push(
        Event::RefundIssued {
            project_id: pid,
            contributor,
            amount: pre.spec_user_contribution(pid, contributor) as i128,
        },
    )
}

/// Both refund-issued and failure-processed markers only ever appear, never
/// disappear.
pub open spec fn markers_monotone(pre: ProjectLaunch, post: ProjectLaunch) -> bool {
    &&& forall|q: u64, c: u64|
        pre.spec_refunded(q, c) ==> #[trigger] post.spec_refunded(q, c)
    &&& forall|q: u64|
        pre.spec_failure_processed(q) ==> #[trigger] post.spec_failure_processed(q)
}

/// No contributor's recorded cumulative amount ever shrinks.
pub open spec fn amounts_monotone(pre: ProjectLaunch, post: ProjectLaunch) -> bool {
    forall|q: u64, c: u64|
        #[trigger] post.spec_user_contribution(q, c) >= pre.spec_user_contribution(q, c)
}

/// A project's status either stays what it was, or moves from `Active`
/// straight to one of the two settlement outcomes: nothing ever moves back
/// to `Active`, out of a terminal status, or into `Cancelled`.
pub open spec fn statuses_monotone(pre: ProjectLaunch, post: ProjectLaunch) -> bool {
    forall|q: u64|
        pre.has_project(q) ==> (#[trigger] post.spec_project(q)).status == pre.spec_project(
            q,
        ).status || (pre.spec_project(q).status is Active && (post.spec_project(q).status
            is Completed || post.spec_project(q).status is Failed))
}

/// Everything a single operation must never undo: projects persist, markers
/// and recorded amounts and statuses only move forward, and the event log
/// only grows at its end.
pub open spec fn history_monotone(pre: ProjectLaunch, post: ProjectLaunch) -> bool {
    &&& post.spec_next_id() >= pre.spec_next_id()
    &&& forall|q: u64| pre.has_project(q) ==> #[trigger] post.has_project(q)
    &&& markers_monotone(pre, post)
    &&& amounts_monotone(pre, post)
    &&& statuses_monotone(pre, post)
    &&& post.spec_events().len() >= pre.spec_events().len()
    &&& forall|i: int|
        0 <= i < pre.spec_events().len() ==> #[trigger] post.spec_events()[i]
            == pre.spec_events()[i]
}

/// Everything but the admin identity and the event log is the same in both
/// ledgers: same projects, same contribution records, same markers.
pub open spec fn same_campaign_state(pre: ProjectLaunch, post: ProjectLaunch) -> bool {
    &&& post.spec_next_id() == pre.spec_next_id()
    &&& forall|pid: u64| post.has_project(pid) == pre.has_project(pid)
    &&& forall|pid: u64|
        pre.has_project(pid) ==> post.spec_project(pid) == pre.spec_project(pid)
    &&& forall|pid: u64|
        pre.has_project(pid) ==> post.spec_contributions(pid) == pre.spec_contributions(pid)
    &&& forall|pid: u64, c: u64| post.spec_refunded(pid, c) == pre.spec_refunded(pid, c)
    &&& forall|pid: u64| post.spec_failure_processed(pid) == pre.spec_failure_processed(pid)
}

/// The accounting invariant: a project's aggregate `total_raised` is exactly
/// the sum of the recorded cumulative contributions over all contributors,
/// the records are well formed, and each contributor's recorded amount is
/// what [`ProjectLaunch::spec_user_contribution`] reads.
pub proof fn lemma_accounting_invariant(l: ProjectLaunch, pid: u64)
    requires
        l.wf(),
        l.has_project(pid),
    ensures
        l.spec_project(pid).total_raised == sum_amounts(l.spec_contributions(pid)),
        entries_wf(l.spec_contributions(pid)),
        forall|c: u64|
            #[trigger] l.spec_user_contribution(pid, c) == amount_of(l.spec_contributions(pid), c),
{
}

/// Project identifiers are exactly the sequentially assigned range below
/// the counter: every identifier below it names a project, none above it
/// does, and so an identifier is never reused.
pub proof fn lemma_project_ids(l: ProjectLaunch)
    requires
        l.wf(),
    ensures
        forall|pid: u64| #[trigger] l.has_project(pid) <==> (pid as int) < l.spec_next_id() as int,
{
}

/// Aggregate totals are never negative, and every contributor's cumulative
/// amount lies between zero and the project's total.
pub proof fn lemma_amounts_nonneg(l: ProjectLaunch, pid: u64)
    requires
        l.wf(),
        l.has_project(pid),
    ensures
        l.spec_project(pid).total_raised >= 0,
        forall|c: u64|
            0 <= #[trigger] l.spec_user_contribution(pid, c) <= l.spec_project(pid).total_raised,
{
    assert forall|c: u64|
        0 <= #[trigger] l.spec_user_contribution(pid, c) <= l.spec_project(
            pid,
        ).total_raised by {
        lemma_amount_le_sum(l.spec_contributions(pid), c);
    }
}

/// Contributions are only ever accepted for an existing, still `Active`
/// project, strictly before its deadline, and only for amounts that reach
/// the configured minimum.
pub proof fn lemma_contribution_gate(l: ProjectLaunch, now: u64, pid: u64, amount: i128)
    requires
        l.contribute_error(now, pid, amount) is None,
    ensures
        l.has_project(pid),
        l.spec_project(pid).status is Active,
        now < l.spec_project(pid).deadline,
        amount >= l.spec_config().min_contribution,
{
}

/// Settlement only ever runs for an existing project, strictly after its
/// deadline, while it is still `Active` with its decision not yet processed.
pub proof fn lemma_settle_gate(l: ProjectLaunch, now: u64, pid: u64)
    requires
        l.wf(),
        l.settle_error(now, pid) is None,
    ensures
        l.has_project(pid),
        now > l.spec_project(pid).deadline,
        l.spec_project(pid).status is Active,
        !l.spec_failure_processed(pid),
{
}

/// Refunds only ever go ahead for an existing `Failed` project, to a
/// contributor not refunded before whose recorded deposit is strictly
/// positive.
pub proof fn lemma_refund_gate(l: ProjectLaunch, pid: u64, c: u64)
    requires
        l.refund_error(pid, c) is None,
    ensures
        l.has_project(pid),
        l.spec_project(pid).status is Failed,
        !l.spec_refunded(pid, c),
        l.spec_user_contribution(pid, c) > 0,
{
}

/// The settlement decision moves a project from `Active` to exactly one of
/// the two terminal outcomes — `Completed` when the total raised reached the
/// goal, `Failed` when it fell short — and marks the decision processed.
pub proof fn lemma_settle_transition(pre: ProjectLaunch, post: ProjectLaunch, now: u64, pid: u64)
    requires
        pre.wf(),
        pre.settle_error(now, pid) is None,
        settle_commit(pre, post, pid),
    ensures
        pre.spec_project(pid).status is Active,
        post.spec_project(pid).status is Completed <==> pre.spec_project(pid).total_raised
            >= pre.spec_project(pid).funding_goal,
        post.spec_project(pid).status is Failed <==> pre.spec_project(pid).total_raised
            < pre.spec_project(pid).funding_goal,
        post.spec_project(pid).total_raised == pre.spec_project(pid).total_raised,
        post.spec_failure_processed(pid),
{
}

/// Settlement runs its decision at most once: once a project's decision has
/// been processed, every later settlement attempt — at any time — returns a
/// conflict error, and by [`ProjectLaunch::mark_project_failed`]'s contract
/// an erroring call changes nothing, so a repeated call leaves status and
/// totals exactly as the first call left them.
pub proof fn lemma_settle_at_most_once(pre: ProjectLaunch, post: ProjectLaunch, now: u64, pid: u64)
    requires
        pre.wf(),
        pre.settle_error(now, pid) is None,
        settle_commit(pre, post, pid),
    ensures
        forall|later: u64|
            later > pre.spec_project(pid).deadline ==> #[trigger] post.settle_error(later, pid)
                == Some(Error::InvalidProjectStatus),
        forall|later: u64|
            later <= pre.spec_project(pid).deadline ==> #[trigger] post.settle_error(later, pid)
                == Some(Error::InvalidInput),
{
}

/// A refund is issued at most once per (project, contributor): once its
/// marker is set, every later refund attempt returns a conflict error, and
/// by [`ProjectLaunch::refund_contributor`]'s contract an erroring call
/// changes nothing — the payout happens exactly once.
pub proof fn lemma_refund_at_most_once(pre: ProjectLaunch, post: ProjectLaunch, pid: u64, c: u64)
    requires
        pre.wf(),
        pre.refund_error(pid, c) is None,
        refund_commit(pre, post, pid, c),
    ensures
        post.refund_error(pid, c) == Some(Error::InvalidInput),
{
}

/// Bootstrap rewrites history in no way: it only records the admin.
pub proof fn lemma_initialize_monotone(pre: ProjectLaunch, post: ProjectLaunch)
    requires
        same_campaign_state(pre, post),
        post.spec_events() == pre.spec_events(),
    ensures
        history_monotone(pre, post),
{
}

/// Creating a project rewrites history in no way: every pre-existing
/// project, record and marker is untouched.
pub proof fn lemma_create_monotone(
    pre: ProjectLaunch,
    post: ProjectLaunch,
    now: u64,
    creator: u64,
    funding_goal: i128,
    deadline: u64,
    token: u64,
    metadata: Seq<u8>,
)
    requires
        pre.wf(),
        create_commit(pre, post, now, creator, funding_goal, deadline, token, metadata),
    ensures
        history_monotone(pre, post),
{
    let id = pre.spec_next_id();
    assert forall|q: u64, c: u64|
        #[trigger] post.spec_user_contribution(q, c) >= pre.spec_user_contribution(q, c) by {
        if q == id {
            assert(post.spec_user_contribution(q, c) == 0);
        }
    }
}

/// An accepted contribution moves history forward only: the touched record
/// grows, everything else is untouched.
pub proof fn lemma_contribute_monotone(
    pre: ProjectLaunch,
    post: ProjectLaunch,
    now: u64,
    pid: u64,
    contributor: u64,
    amount: i128,
)
    requires
        pre.wf(),
        pre.contribute_error(now, pid, amount) is None,
        contribute_commit(pre, post, pid, contributor, amount),
    ensures
        history_monotone(pre, post),
{
}

/// Settlement moves history forward only: one status leaves `Active`,
/// one marker appears, nothing else is touched.
pub proof fn lemma_settle_monotone(pre: ProjectLaunch, post: ProjectLaunch, now: u64, pid: u64)
    requires
        pre.wf(),
        pre.settle_error(now, pid) is None,
        settle_commit(pre, post, pid),
    ensures
        history_monotone(pre, post),
{
    assert forall|q: u64, c: u64|
        #[trigger] post.spec_user_contribution(q, c) >= pre.spec_user_contribution(q, c) by {
        assert(post.has_project(q) == pre.has_project(q));
    }
}

/// A completed refund moves history forward only: one marker appears,
/// nothing else is touched — not even the refunded contributor's record.
pub proof fn lemma_refund_monotone(pre: ProjectLaunch, post: ProjectLaunch, pid: u64, c: u64)
    requires
        pre.wf(),
        pre.refund_error(pid, c) is None,
        refund_commit(pre, post, pid, c),
    ensures
        history_monotone(pre, post),
{
    assert forall|q: u64, c2: u64|
        #[trigger] post.spec_user_contribution(q, c2) >= pre.spec_user_contribution(q, c2) by {
        assert(post.has_project(q) == pre.has_project(q));
    }
}

} // verus!
