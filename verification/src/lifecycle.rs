//! Proposal lifecycle: creation against the spending and velocity limits,
//! voting with delegation and the threshold/quorum evaluation, rejection
//! and cancellation, expiry, and the cleanup of lapsed records.
//!
//! Every entry point either fails with a specific error leaving the state
//! untouched, or performs exactly the documented mutation; the named
//! transition predicates below are the contracts.

use vstd::prelude::*;

use crate::audit::append_audit;
use crate::delegation::resolve_effective_voter;
use crate::delegation::spec_effective_voter;
use crate::engine::VaultDAO;
use crate::engine::audit_extended;
use crate::engine::day_number;
use crate::engine::lookup_role;
use crate::engine::seq_contains;
use crate::engine::proposals_step_ok;
use crate::engine::spec_role_of;
use crate::engine::week_number;
use crate::errors::VaultError;
use crate::spending::bucket_add;
use crate::spending::bucket_get;
use crate::spending::bucket_lookup;
use crate::spending::bucket_refund;
use crate::spending::check_and_update_velocity;
use crate::spending::pruned_history;
use crate::spending::vel_history;
use crate::spending::window_start;
use crate::types::AuditAction;
use crate::types::CancellationRecord;
use crate::types::Condition;
use crate::types::ConditionLogic;
use crate::types::InitConfig;
use crate::types::ListMode;
use crate::types::Priority;
use crate::types::Proposal;
use crate::types::ProposalStatus;
use crate::types::Role;
use crate::types::calculate_threshold;
use crate::types::has_voted;
use crate::types::quorum_met;
use crate::types::spec_required_approvals;
use crate::types::vote_requirements_met;

verus! {

/// Roles allowed to create and vote on proposals.
pub open spec fn can_act(role: Role) -> bool {
    role is Treasurer || role is Admin
}

impl VaultDAO {
    /// Whether the recipient list admits this recipient.
    pub open spec fn recipient_allowed(self, recipient: u64) -> bool {
        match self.list_mode {
            ListMode::Disabled => true,
            ListMode::Whitelist => self.whitelist@.contains(recipient),
            ListMode::Blacklist => !self.blacklist@.contains(recipient),
        }
    }

    /// The error a refused recipient gets, by list mode.
    pub open spec fn recipient_error(self) -> VaultError {
        if self.list_mode is Whitelist {
            VaultError::RecipientNotWhitelisted
        } else {
            VaultError::RecipientBlacklisted
        }
    }

    /// Whether this signer still has room in the sliding velocity window.
    pub open spec fn velocity_ok(self, who: u64, now: u64) -> bool {
        pruned_history(
            vel_history(self.velocity@, who),
            window_start(now, self.config.velocity_limit.window),
        ).len() < self.config.velocity_limit.limit
    }

    /// The first check that refuses a proposal, in the order the engine
    /// applies them; `None` when the proposal is admitted.
    pub open spec fn propose_error(self, proposer: u64, recipient: u64, amount: i128, now: u64)
        -> Option<VaultError> {
        if !self.initialized {
            Some(VaultError::NotInitialized)
        } else if !can_act(spec_role_of(self.roles@, proposer)) {
            Some(VaultError::InsufficientRole)
        } else if !self.recipient_allowed(recipient) {
            Some(self.recipient_error())
        } else if !self.velocity_ok(proposer, now) {
            Some(VaultError::VelocityLimitExceeded)
        } else if amount <= 0 {
            Some(VaultError::InvalidAmount)
        } else if amount > self.config.spending_limit {
            Some(VaultError::ExceedsProposalLimit)
        } else if bucket_get(self.daily_spent@, day_number(now)) + amount
            > self.config.daily_limit {
            Some(VaultError::ExceedsDailyLimit)
        } else if bucket_get(self.weekly_spent@, week_number(now)) + amount
            > self.config.weekly_limit {
            Some(VaultError::ExceedsWeeklyLimit)
        } else {
            None
        }
    }
}

/// What a freshly created proposal looks like: `Pending`, no votes, no time
/// lock, the current signers as its snapshot, expiry one expiration period
/// out, and the default voting deadline if one is configured.
pub open spec fn is_fresh_proposal(
    p: Proposal,
    c: InitConfig,
    id: u64,
    proposer: u64,
    recipient: u64,
    token: u64,
    amount: i128,
    memo: u64,
    conds: Seq<Condition>,
    logic: ConditionLogic,
    now: u64,
) -> bool {
    &&& p.id == id
    &&& p.proposer == proposer
    &&& p.recipient == recipient
    &&& p.token == token
    &&& p.amount == amount
    &&& p.memo == memo
    &&& p.approvals@.len() == 0
    &&& p.abstentions@.len() == 0
    &&& p.status is Pending
    &&& p.priority is Normal
    &&& p.conditions@ == conds
    &&& p.condition_logic == logic
    &&& p.created_at == now
    &&& p.expires_at == now + c.expiration_period
    &&& p.unlock_ledger == 0
    &&& p.snapshot_signers@ == c.signers@
    &&& p.voting_deadline == if c.default_voting_deadline > 0 {
        (now + c.default_voting_deadline) as u64
    } else {
        0u64
    }
}

/// The full behavior of proposal creation, shared by both entry points:
/// either the first failed check's error with nothing changed, or the
/// amount reserved against both counters, the velocity window charged, the
/// fresh proposal appended under the next id, and the action audited.
pub open spec fn propose_transition(
    pre: VaultDAO,
    post: VaultDAO,
    r: Result<u64, VaultError>,
    proposer: u64,
    recipient: u64,
    token: u64,
    amount: i128,
    memo: u64,
    conds: Seq<Condition>,
    logic: ConditionLogic,
    now: u64,
) -> bool {
    match r {
        Ok(id) => {
            &&& pre.propose_error(proposer, recipient, amount, now) is None
            &&& id == pre.proposals@.len() + 1
            &&& post.proposals@.len() == id
            &&& forall|i: int|
                0 <= i < pre.proposals@.len() ==> post.proposals@[i] == pre.proposals@[i]
            &&& post.proposals@[id - 1] matches Some(p) && is_fresh_proposal(
                p,
                pre.config,
                id,
                proposer,
                recipient,
                token,
                amount,
                memo,
                conds,
                logic,
                now,
            )
            &&& bucket_get(post.daily_spent@, day_number(now)) == bucket_get(
                pre.daily_spent@,
                day_number(now),
            ) + amount
            &&& forall|d: u64|
                d != day_number(now) ==> bucket_get(post.daily_spent@, d) == bucket_get(
                    pre.daily_spent@,
                    d,
                )
            &&& bucket_get(post.weekly_spent@, week_number(now)) == bucket_get(
                pre.weekly_spent@,
                week_number(now),
            ) + amount
            &&& forall|w: u64|
                w != week_number(now) ==> bucket_get(post.weekly_spent@, w) == bucket_get(
                    pre.weekly_spent@,
                    w,
                )
            &&& vel_history(post.velocity@, proposer) == pruned_history(
                vel_history(pre.velocity@, proposer),
                window_start(now, pre.config.velocity_limit.window),
            ).push(now)
            &&& forall|w2: u64|
                w2 != proposer ==> vel_history(post.velocity@, w2) == vel_history(
                    pre.velocity@,
                    w2,
                )
            &&& audit_extended(pre, post, AuditAction::ProposeTransfer, proposer, id, now)
            &&& post.initialized == pre.initialized
            &&& post.config == pre.config
            &&& post.roles == pre.roles
            &&& post.delegations == pre.delegations
            &&& post.retries == pre.retries
            &&& post.list_mode == pre.list_mode
            &&& post.whitelist == pre.whitelist
            &&& post.blacklist == pre.blacklist
            &&& post.cancellations == pre.cancellations
        },
        Err(e) => {
            &&& post == pre
            &&& pre.propose_error(proposer, recipient, amount, now) == Some(e)
        },
    }
}

/// An element-for-element copy of a vector of identities.
fn clone_ids(v: &Vec<u64>) -> (r: Vec<u64>)
    ensures
        r@ == v@,
{
    let mut r: Vec<u64> = Vec::new();
    let mut i: usize = 0;
    while i < v.len()
        invariant
            0 <= i <= v@.len(),
            r@ == v@.take(i as int),
        decreases v@.len() - i,
    {
        r.push(v[i]);
        proof {
            assert(v@.take(i + 1) =~= v@.take(i as int).push(v@[i as int]));
        }
        i = i + 1;
    }
    proof {
        assert(v@.take(v@.len() as int) =~= v@);
    }
    r
}

impl VaultDAO {
    /// Creates a transfer proposal carrying execution conditions.
    ///
    /// Validates the proposer's role, the recipient against the active
    /// list, the proposer's velocity window, and the amount against the
    /// per-proposal, daily and weekly limits. On success the full amount is
    /// reserved against the day and week counters in this same operation —
    /// reservation at creation, not execution, so concurrent pending
    /// proposals cannot oversubscribe a limit.
    #[verifier::rlimit(100)]
    pub fn propose_transfer_with_conditions(
        &mut self,
        proposer: u64,
        recipient: u64,
        token: u64,
        amount: i128,
        memo: u64,
        conditions: Vec<Condition>,
        condition_logic: ConditionLogic,
        now: u64,
    ) -> (r: Result<u64, VaultError>)
        requires
            old(self).wf(),
            old(self).audit_log@.len() < u64::MAX,
            old(self).proposals@.len() < u64::MAX,
            now + old(self).config.expiration_period <= u64::MAX,
            now + old(self).config.default_voting_deadline <= u64::MAX,
        ensures
            final(self).wf(),
            proposals_step_ok(*old(self), *final(self)),
            propose_transition(
                *old(self),
                *final(self),
                r,
                proposer,
                recipient,
                token,
                amount,
                memo,
                conditions@,
                condition_logic,
                now,
            ),
    {
        if !self.initialized {
            return Err(VaultError::NotInitialized);
        }
        let role = lookup_role(&self.roles, proposer);
        let acting = match role {
            Role::Treasurer => true,
            Role::Admin => true,
            Role::Member => false,
        };
        if !acting {
            return Err(VaultError::InsufficientRole);
        }
        match self.list_mode {
            ListMode::Disabled => {},
            ListMode::Whitelist => {
                if !seq_contains(&self.whitelist, recipient) {
                    return Err(VaultError::RecipientNotWhitelisted);
                }
            },
            ListMode::Blacklist => {
                if seq_contains(&self.blacklist, recipient) {
                    return Err(VaultError::RecipientBlacklisted);
                }
            },
        }
        let vcfg = self.config.velocity_limit;
        if !crate::spending::velocity_admits(&self.velocity, proposer, &vcfg, now) {
            return Err(VaultError::VelocityLimitExceeded);
        }
        if amount <= 0 {
            return Err(VaultError::InvalidAmount);
        }
        if amount > self.config.spending_limit {
            return Err(VaultError::ExceedsProposalLimit);
        }
        let day = now / 86_400;
        let week = now / 604_800;
        let spent_today = bucket_lookup(&self.daily_spent, day);
        proof {
            crate::spending::lemma_bucket_get_nonneg(self.daily_spent@, day);
        }
        if amount > self.config.daily_limit || spent_today > self.config.daily_limit - amount {
            return Err(VaultError::ExceedsDailyLimit);
        }
        let spent_week = bucket_lookup(&self.weekly_spent, week);
        proof {
            crate::spending::lemma_bucket_get_nonneg(self.weekly_spent@, week);
        }
        if amount > self.config.weekly_limit || spent_week > self.config.weekly_limit - amount {
            return Err(VaultError::ExceedsWeeklyLimit);
        }

        // Every check passed: reserve, charge the window, create, audit.
        let admitted = check_and_update_velocity(&mut self.velocity, proposer, &vcfg, now);
        assert(admitted);
        bucket_add(&mut self.daily_spent, day, amount);
        bucket_add(&mut self.weekly_spent, week, amount);

        let id = self.proposals.len() as u64 + 1;
        let snapshot = clone_ids(&self.config.signers);
        let deadline: u64 = if self.config.default_voting_deadline > 0 {
            now + self.config.default_voting_deadline
        } else {
            0
        };
        let proposal = Proposal {
            id,
            proposer,
            recipient,
            token,
            amount,
            memo,
            approvals: Vec::new(),
            abstentions: Vec::new(),
            status: ProposalStatus::Pending,
            priority: Priority::Normal,
            conditions,
            condition_logic,
            created_at: now,
            expires_at: now + self.config.expiration_period,
            unlock_ledger: 0,
            snapshot_signers: snapshot,
            voting_deadline: deadline,
        };
        self.proposals.push(Some(proposal));
        append_audit(&mut self.audit_log, AuditAction::ProposeTransfer, proposer, id, now);
        Ok(id)
    }

    /// Creates an unconditional transfer proposal; see
    /// `propose_transfer_with_conditions` for the checks and the
    /// reservation this performs.
    pub fn propose_transfer(
        &mut self,
        proposer: u64,
        recipient: u64,
        token: u64,
        amount: i128,
        memo: u64,
        now: u64,
    ) -> (r: Result<u64, VaultError>)
        requires
            old(self).wf(),
            old(self).audit_log@.len() < u64::MAX,
            old(self).proposals@.len() < u64::MAX,
            now + old(self).config.expiration_period <= u64::MAX,
            now + old(self).config.default_voting_deadline <= u64::MAX,
        ensures
            final(self).wf(),
            proposals_step_ok(*old(self), *final(self)),
            propose_transition(
                *old(self),
                *final(self),
                r,
                proposer,
                recipient,
                token,
                amount,
                memo,
                Seq::<Condition>::empty(),
                ConditionLogic::And,
                now,
            ),
    {
        let conditions: Vec<Condition> = Vec::new();
        proof {
            assert(conditions@ =~= Seq::<Condition>::empty());
        }
        self.propose_transfer_with_conditions(
            proposer,
            recipient,
            token,
            amount,
            memo,
            conditions,
            ConditionLogic::And,
            now,
        )
    }
}

/// The fields fixed at proposal creation that no vote ever changes.
pub open spec fn core_fields_eq(p0: Proposal, p1: Proposal) -> bool {
    &&& p1.id == p0.id
    &&& p1.proposer == p0.proposer
    &&& p1.recipient == p0.recipient
    &&& p1.token == p0.token
    &&& p1.amount == p0.amount
    &&& p1.memo == p0.memo
    &&& p1.priority == p0.priority
    &&& p1.conditions@ == p0.conditions@
    &&& p1.condition_logic == p0.condition_logic
    &&& p1.created_at == p0.created_at
    &&& p1.expires_at == p0.expires_at
    &&& p1.snapshot_signers@ == p0.snapshot_signers@
    &&& p1.voting_deadline == p0.voting_deadline
}

/// Everything except the proposal under `id` and the audit log is
/// untouched; what happened to those two is stated separately.
pub open spec fn frame_all_but_proposal(pre: VaultDAO, post: VaultDAO, id: u64) -> bool {
    &&& post.initialized == pre.initialized
    &&& post.config == pre.config
    &&& post.roles == pre.roles
    &&& post.proposals@.len() == pre.proposals@.len()
    &&& forall|i: int|
        0 <= i < pre.proposals@.len() && i != id - 1 ==> post.proposals@[i] == pre.proposals@[i]
    &&& post.delegations == pre.delegations
    &&& post.daily_spent == pre.daily_spent
    &&& post.weekly_spent == pre.weekly_spent
    &&& post.velocity == pre.velocity
    &&& post.retries == pre.retries
    &&& post.list_mode == pre.list_mode
    &&& post.whitelist == pre.whitelist
    &&& post.blacklist == pre.blacklist
    &&& post.cancellations == pre.cancellations
}

/// The proposal under `id` only had its status set to `st`; votes, time
/// lock and creation fields are as they were, and the audit log is
/// untouched. This is the shape of the expiry and deadline lapses.
pub open spec fn lapse_recorded(pre: VaultDAO, post: VaultDAO, id: u64, st: ProposalStatus) -> bool {
    &&& frame_all_but_proposal(pre, post, id)
    &&& post.audit_log == pre.audit_log
    &&& pre.spec_proposal(id) matches Some(p0) && (post.spec_proposal(id) matches Some(p1) && {
        &&& core_fields_eq(p0, p1)
        &&& p1.approvals@ == p0.approvals@
        &&& p1.abstentions@ == p0.abstentions@
        &&& p1.unlock_ledger == p0.unlock_ledger
        &&& p1.status == st
    })
}

/// The checks a vote runs before it looks at time or delegation, in order;
/// `None` when they all pass. None of these mutate.
pub open spec fn vote_precheck_error(pre: VaultDAO, signer: u64, proposal_id: u64) -> Option<
    VaultError,
> {
    if !pre.initialized {
        Some(VaultError::NotInitialized)
    } else if !can_act(spec_role_of(pre.roles@, signer)) {
        Some(VaultError::InsufficientRole)
    } else {
        match pre.spec_proposal(proposal_id) {
            None => Some(VaultError::ProposalNotFound),
            Some(p) => if !p.snapshot_signers@.contains(signer) {
                Some(VaultError::VoterNotInSnapshot)
            } else if !(p.status is Pending) {
                Some(VaultError::ProposalNotPending)
            } else {
                None
            },
        }
    }
}

/// The full behavior of casting a vote (`approve` picks the list).
///
/// A failed precheck or an over-deep delegation chain or a duplicate
/// effective voter changes nothing. A vote on a proposal past its expiry
/// records `Expired` and fails; one past its voting deadline records
/// `Rejected` and fails — the two deliberate mutate-and-fail transitions.
/// Otherwise the effective voter is appended, and the proposal becomes
/// `Approved` exactly when approvals reach the required threshold and the
/// quorum is disabled or reached — with a time lock armed when the amount
/// is at or above the configured bound. An approval is audited.
pub open spec fn vote_transition(
    pre: VaultDAO,
    post: VaultDAO,
    r: Result<(), VaultError>,
    signer: u64,
    proposal_id: u64,
    approve: bool,
    now: u64,
) -> bool {
    match vote_precheck_error(pre, signer, proposal_id) {
        Some(e) => r == Err::<(), VaultError>(e) && post == pre,
        None => pre.spec_proposal(proposal_id) matches Some(p0) && {
            if now > p0.expires_at {
                &&& r == Err::<(), VaultError>(VaultError::ProposalExpired)
                &&& lapse_recorded(pre, post, proposal_id, ProposalStatus::Expired)
            } else if p0.voting_deadline > 0 && now > p0.voting_deadline {
                &&& r == Err::<(), VaultError>(VaultError::VotingDeadlinePassed)
                &&& lapse_recorded(pre, post, proposal_id, ProposalStatus::Rejected)
            } else {
                match spec_effective_voter(pre.delegations@, signer, now) {
                    Err(e) => r == Err::<(), VaultError>(e) && post == pre,
                    Ok(eff) => {
                        if has_voted(p0, eff) {
                            r == Err::<(), VaultError>(VaultError::AlreadyApproved) && post == pre
                        } else {
                            let new_approvals = if approve {
                                p0.approvals@.push(eff)
                            } else {
                                p0.approvals@
                            };
                            let new_abstentions = if approve {
                                p0.abstentions@
                            } else {
                                p0.abstentions@.push(eff)
                            };
                            let approved_now = new_approvals.len() >= spec_required_approvals(
                                pre.config,
                                p0.amount,
                            ) && (pre.config.quorum == 0 || new_approvals.len()
                                + new_abstentions.len() >= pre.config.quorum);
                            &&& r == Ok::<(), VaultError>(())
                            &&& frame_all_but_proposal(pre, post, proposal_id)
                            &&& post.spec_proposal(proposal_id) matches Some(p1) && {
                                &&& core_fields_eq(p0, p1)
                                &&& p1.approvals@ == new_approvals
                                &&& p1.abstentions@ == new_abstentions
                                &&& p1.status == if approved_now {
                                    ProposalStatus::Approved
                                } else {
                                    ProposalStatus::Pending
                                }
                                &&& p1.unlock_ledger == if approved_now {
                                    if p0.amount >= pre.config.timelock_threshold {
                                        (now + pre.config.timelock_delay) as u64
                                    } else {
                                        0u64
                                    }
                                } else {
                                    p0.unlock_ledger
                                }
                            }
                            &&& if approve {
                                audit_extended(
                                    pre,
                                    post,
                                    AuditAction::ApproveProposal,
                                    signer,
                                    proposal_id,
                                    now,
                                )
                            } else {
                                post.audit_log == pre.audit_log
                            }
                        }
                    },
                }
            }
        },
    }
}

impl VaultDAO {
    /// Casts a vote; `approve` picks approvals or abstentions. See
    /// `vote_transition` for the exact behavior.
    #[verifier::rlimit(100)]
    fn cast_vote(&mut self, signer: u64, proposal_id: u64, approve: bool, now: u64) -> (r: Result<
        (),
        VaultError,
    >)
        requires
            old(self).wf(),
            old(self).audit_log@.len() < u64::MAX,
            now + old(self).config.timelock_delay <= u64::MAX,
        ensures
            final(self).wf(),
            proposals_step_ok(*old(self), *final(self)),
            vote_transition(*old(self), *final(self), r, signer, proposal_id, approve, now),
    {
        if !self.initialized {
            return Err(VaultError::NotInitialized);
        }
        let role = lookup_role(&self.roles, signer);
        let acting = match role {
            Role::Treasurer => true,
            Role::Admin => true,
            Role::Member => false,
        };
        if !acting {
            return Err(VaultError::InsufficientRole);
        }
        if proposal_id == 0 || proposal_id > self.proposals.len() as u64 {
            return Err(VaultError::ProposalNotFound);
        }
        let idx = (proposal_id - 1) as usize;

        // Read phase: everything the decision needs, without touching state.
        let mut in_snapshot: bool = false;
        let mut is_pending: bool = false;
        let mut expires_at: u64 = 0;
        let mut voting_deadline: u64 = 0;
        let mut amount: i128 = 0;
        match &self.proposals[idx] {
            None => {
                return Err(VaultError::ProposalNotFound);
            },
            Some(p) => {
                in_snapshot = seq_contains(&p.snapshot_signers, signer);
                is_pending = match p.status {
                    ProposalStatus::Pending => true,
                    _ => false,
                };
                expires_at = p.expires_at;
                voting_deadline = p.voting_deadline;
                amount = p.amount;
            },
        }
        if !in_snapshot {
            return Err(VaultError::VoterNotInSnapshot);
        }
        if !is_pending {
            return Err(VaultError::ProposalNotPending);
        }

        // Lapse transitions: record the lapse, then fail.
        if now > expires_at {
            match &mut self.proposals[idx] {
                Some(p) => {
                    p.status = ProposalStatus::Expired;
                },
                None => {
                    assert(false);
                },
            }
            return Err(VaultError::ProposalExpired);
        }
        if voting_deadline > 0 && now > voting_deadline {
            match &mut self.proposals[idx] {
                Some(p) => {
                    p.status = ProposalStatus::Rejected;
                },
                None => {
                    assert(false);
                },
            }
            return Err(VaultError::VotingDeadlinePassed);
        }

        // Delegation: the vote lands on the effective voter.
        let eff = match resolve_effective_voter(&self.delegations, signer, now) {
            Ok(e) => e,
            Err(e) => {
                return Err(e);
            },
        };
        let mut already: bool = false;
        match &self.proposals[idx] {
            Some(p) => {
                already = seq_contains(&p.approvals, eff) || seq_contains(&p.abstentions, eff);
            },
            None => {
                assert(false);
            },
        }
        if already {
            return Err(VaultError::AlreadyApproved);
        }

        // Record the vote and evaluate the transition.
        let required = calculate_threshold(&self.config, amount);
        let quorum = self.config.quorum;
        let timelock_threshold = self.config.timelock_threshold;
        let timelock_delay = self.config.timelock_delay;
        match &mut self.proposals[idx] {
            Some(p) => {
                if approve {
                    p.approvals.push(eff);
                } else {
                    p.abstentions.push(eff);
                }
                let approvals_count = p.approvals.len();
                let total_votes: u128 = approvals_count as u128 + p.abstentions.len() as u128;
                let approved_now = approvals_count as u128 >= required as u128 && (quorum == 0
                    || total_votes >= quorum as u128);
                if approved_now {
                    p.status = ProposalStatus::Approved;
                    p.unlock_ledger = if amount >= timelock_threshold {
                        now + timelock_delay
                    } else {
                        0
                    };
                }
                proof {
                    let p0 = old(self).spec_proposal(proposal_id)->Some_0;
                    if approve {
                        assert(p.approvals@ == p0.approvals@.push(eff));
                        assert(forall|i: int, j: int|
                            0 <= i < j < p.approvals@.len() ==> p.approvals@[i]
                                != p.approvals@[j]) by {
                            assert(!p0.approvals@.contains(eff));
                        }
                    } else {
                        assert(p.abstentions@ == p0.abstentions@.push(eff));
                    }
                }
            },
            None => {
                assert(false);
            },
        }
        if approve {
            append_audit(&mut self.audit_log, AuditAction::ApproveProposal, signer, proposal_id, now);
        }
        Ok(())
    }

    /// Approves a pending proposal as `signer` (landing on the effective
    /// voter after delegation); the proposal becomes `Approved` exactly
    /// when approvals reach the required threshold and the quorum (if
    /// enabled) is reached. See `vote_transition` for every case.
    pub fn approve_proposal(&mut self, signer: u64, proposal_id: u64, now: u64) -> (r: Result<
        (),
        VaultError,
    >)
        requires
            old(self).wf(),
            old(self).audit_log@.len() < u64::MAX,
            now + old(self).config.timelock_delay <= u64::MAX,
        ensures
            final(self).wf(),
            proposals_step_ok(*old(self), *final(self)),
            vote_transition(*old(self), *final(self), r, signer, proposal_id, true, now),
    {
        self.cast_vote(signer, proposal_id, true, now)
    }

    /// Abstains on a pending proposal as `signer`: the effective voter is
    /// recorded in the abstention list, which counts toward the quorum but
    /// never toward the approval threshold. See `vote_transition`.
    pub fn abstain_proposal(&mut self, signer: u64, proposal_id: u64, now: u64) -> (r: Result<
        (),
        VaultError,
    >)
        requires
            old(self).wf(),
            old(self).audit_log@.len() < u64::MAX,
            now + old(self).config.timelock_delay <= u64::MAX,
        ensures
            final(self).wf(),
            proposals_step_ok(*old(self), *final(self)),
            vote_transition(*old(self), *final(self), r, signer, proposal_id, false, now),
    {
        self.cast_vote(signer, proposal_id, false, now)
    }
}

/// A proposal is ready to be purged: it is `Expired` and the grace period
/// after its expiry has elapsed.
pub open spec fn cleanup_ready(pre: VaultDAO, proposal_id: u64, now: u64) -> bool {
    pre.spec_proposal(proposal_id) matches Some(p) && p.status is Expired && now > p.expires_at
        + pre.config.grace_period
}

/// How many of the first `i` ids a batch cleanup purges: each id counts
/// once, when it is ready and not a repeat of an earlier entry.
pub open spec fn spec_batch_cleaned(pre: VaultDAO, ids: Seq<u64>, now: u64, i: int) -> int
    decreases i,
{
    if i <= 0 {
        0
    } else {
        spec_batch_cleaned(pre, ids, now, i - 1) + if cleanup_ready(pre, ids[i - 1], now)
            && !ids.take(i - 1).contains(ids[i - 1]) {
            1int
        } else {
            0int
        }
    }
}

impl VaultDAO {
    /// Rejects a pending proposal. Only an admin or the original proposer
    /// may reject; rejection is terminal and — deliberately — does not
    /// refund the reserved spending: proposing and then failing costs
    /// capacity, so limits cannot be probed for free.
    #[verifier::rlimit(100)]
    pub fn reject_proposal(&mut self, rejector: u64, proposal_id: u64, now: u64) -> (r: Result<
        (),
        VaultError,
    >)
        requires
            old(self).wf(),
            old(self).audit_log@.len() < u64::MAX,
        ensures
            final(self).wf(),
            proposals_step_ok(*old(self), *final(self)),
            match r {
                Ok(()) => {
                    &&& old(self).spec_proposal(proposal_id) matches Some(p0) && {
                        &&& p0.status is Pending
                        &&& (spec_role_of(old(self).roles@, rejector) is Admin || rejector
                            == p0.proposer)
                        &&& final(self).spec_proposal(proposal_id) matches Some(p1) && {
                            &&& core_fields_eq(p0, p1)
                            &&& p1.approvals@ == p0.approvals@
                            &&& p1.abstentions@ == p0.abstentions@
                            &&& p1.unlock_ledger == p0.unlock_ledger
                            &&& p1.status is Rejected
                        }
                    }
                    &&& frame_all_but_proposal(*old(self), *final(self), proposal_id)
                    &&& audit_extended(
                        *old(self),
                        *final(self),
                        AuditAction::RejectProposal,
                        rejector,
                        proposal_id,
                        now,
                    )
                },
                Err(e) => {
                    &&& *final(self) == *old(self)
                    &&& match old(self).spec_proposal(proposal_id) {
                        None => e == VaultError::ProposalNotFound,
                        Some(p0) => if !(spec_role_of(old(self).roles@, rejector) is Admin
                            || rejector == p0.proposer) {
                            e == VaultError::Unauthorized
                        } else if !(p0.status is Pending) {
                            e == VaultError::ProposalNotPending
                        } else {
                            false
                        },
                    }
                },
            },
    {
        if proposal_id == 0 || proposal_id > self.proposals.len() as u64 {
            return Err(VaultError::ProposalNotFound);
        }
        let idx = (proposal_id - 1) as usize;
        let role = lookup_role(&self.roles, rejector);
        let is_admin = match role {
            Role::Admin => true,
            _ => false,
        };
        let mut is_pending: bool = false;
        let mut authorized: bool = false;
        match &self.proposals[idx] {
            None => {
                return Err(VaultError::ProposalNotFound);
            },
            Some(p) => {
                authorized = is_admin || rejector == p.proposer;
                is_pending = match p.status {
                    ProposalStatus::Pending => true,
                    _ => false,
                };
            },
        }
        if !authorized {
            return Err(VaultError::Unauthorized);
        }
        if !is_pending {
            return Err(VaultError::ProposalNotPending);
        }
        match &mut self.proposals[idx] {
            Some(p) => {
                p.status = ProposalStatus::Rejected;
            },
            None => {
                assert(false);
            },
        }
        append_audit(&mut self.audit_log, AuditAction::RejectProposal, rejector, proposal_id, now);
        Ok(())
    }

    /// Cancels a pending proposal, refunding exactly its amount to the
    /// current day and week counters (each floored at zero) and storing a
    /// cancellation record. Only an admin or the proposer may cancel, and
    /// only while `Pending`: an approved proposal has votes behind it and
    /// must be rejected instead.
    #[verifier::rlimit(100)]
    pub fn cancel_proposal(&mut self, canceller: u64, proposal_id: u64, reason: u64, now: u64)
        -> (r: Result<(), VaultError>)
        requires
            old(self).wf(),
        ensures
            final(self).wf(),
            proposals_step_ok(*old(self), *final(self)),
            match r {
                Ok(()) => {
                    &&& old(self).spec_proposal(proposal_id) matches Some(p0) && {
                        &&& p0.status is Pending
                        &&& (spec_role_of(old(self).roles@, canceller) is Admin || canceller
                            == p0.proposer)
                        &&& final(self).spec_proposal(proposal_id) matches Some(p1) && {
                            &&& core_fields_eq(p0, p1)
                            &&& p1.approvals@ == p0.approvals@
                            &&& p1.abstentions@ == p0.abstentions@
                            &&& p1.unlock_ledger == p0.unlock_ledger
                            &&& p1.status is Cancelled
                        }
                        &&& bucket_get(final(self).daily_spent@, day_number(now)) == if bucket_get(
                            old(self).daily_spent@,
                            day_number(now),
                        ) - p0.amount >= 0 {
                            (bucket_get(old(self).daily_spent@, day_number(now))
                                - p0.amount) as i128
                        } else {
                            0i128
                        }
                        &&& bucket_get(final(self).weekly_spent@, week_number(now))
                            == if bucket_get(old(self).weekly_spent@, week_number(now)) - p0.amount
                            >= 0 {
                            (bucket_get(old(self).weekly_spent@, week_number(now))
                                - p0.amount) as i128
                        } else {
                            0i128
                        }
                        &&& final(self).cancellations@ == old(self).cancellations@.push(
                            CancellationRecord {
                                proposal_id,
                                cancelled_by: canceller,
                                reason,
                                cancelled_at_ledger: now,
                                refunded_amount: p0.amount,
                            },
                        )
                    }
                    &&& forall|d: u64|
                        d != day_number(now) ==> bucket_get(final(self).daily_spent@, d)
                            == bucket_get(old(self).daily_spent@, d)
                    &&& forall|w: u64|
                        w != week_number(now) ==> bucket_get(final(self).weekly_spent@, w)
                            == bucket_get(old(self).weekly_spent@, w)
                    &&& final(self).proposals@.len() == old(self).proposals@.len()
                    &&& forall|i: int|
                        0 <= i < old(self).proposals@.len() && i != proposal_id - 1
                            ==> final(self).proposals@[i] == old(self).proposals@[i]
                    &&& final(self).initialized == old(self).initialized
                    &&& final(self).config == old(self).config
                    &&& final(self).roles == old(self).roles
                    &&& final(self).delegations == old(self).delegations
                    &&& final(self).velocity == old(self).velocity
                    &&& final(self).retries == old(self).retries
                    &&& final(self).list_mode == old(self).list_mode
                    &&& final(self).whitelist == old(self).whitelist
                    &&& final(self).blacklist == old(self).blacklist
                    &&& final(self).audit_log == old(self).audit_log
                },
                Err(e) => {
                    &&& *final(self) == *old(self)
                    &&& match old(self).spec_proposal(proposal_id) {
                        None => e == VaultError::ProposalNotFound,
                        Some(p0) => if p0.status is Cancelled {
                            e == VaultError::ProposalAlreadyCancelled
                        } else if !(p0.status is Pending) {
                            e == VaultError::ProposalNotPending
                        } else if !(spec_role_of(old(self).roles@, canceller) is Admin || canceller
                            == p0.proposer) {
                            e == VaultError::Unauthorized
                        } else {
                            false
                        },
                    }
                },
            },
    {
        if proposal_id == 0 || proposal_id > self.proposals.len() as u64 {
            return Err(VaultError::ProposalNotFound);
        }
        let idx = (proposal_id - 1) as usize;
        let role = lookup_role(&self.roles, canceller);
        let is_admin = match role {
            Role::Admin => true,
            _ => false,
        };
        let mut is_cancelled: bool = false;
        let mut is_pending: bool = false;
        let mut authorized: bool = false;
        let mut amount: i128 = 0;
        match &self.proposals[idx] {
            None => {
                return Err(VaultError::ProposalNotFound);
            },
            Some(p) => {
                is_cancelled = match p.status {
                    ProposalStatus::Cancelled => true,
                    _ => false,
                };
                is_pending = match p.status {
                    ProposalStatus::Pending => true,
                    _ => false,
                };
                authorized = is_admin || canceller == p.proposer;
                amount = p.amount;
            },
        }
        if is_cancelled {
            return Err(VaultError::ProposalAlreadyCancelled);
        }
        if !is_pending {
            return Err(VaultError::ProposalNotPending);
        }
        if !authorized {
            return Err(VaultError::Unauthorized);
        }

        // Hand the reserved capacity back to the current buckets.
        let day = now / 86_400;
        let week = now / 604_800;
        bucket_refund(&mut self.daily_spent, day, amount);
        bucket_refund(&mut self.weekly_spent, week, amount);

        match &mut self.proposals[idx] {
            Some(p) => {
                p.status = ProposalStatus::Cancelled;
            },
            None => {
                assert(false);
            },
        }
        self.cancellations.push(
            CancellationRecord {
                proposal_id,
                cancelled_by: canceller,
                reason,
                cancelled_at_ledger: now,
                refunded_amount: amount,
            },
        );
        Ok(())
    }

    /// Marks a proposal `Expired` once its expiry ledger has passed.
    /// `Pending` and `Approved` proposals can lapse this way; terminal ones
    /// cannot.
    pub fn mark_proposal_expired(&mut self, proposal_id: u64, now: u64) -> (r: Result<
        (),
        VaultError,
    >)
        requires
            old(self).wf(),
        ensures
            final(self).wf(),
            proposals_step_ok(*old(self), *final(self)),
            match r {
                Ok(()) => {
                    &&& old(self).spec_proposal(proposal_id) matches Some(p0) && {
                        &&& (p0.status is Pending || p0.status is Approved)
                        &&& now > p0.expires_at
                    }
                    &&& lapse_recorded(
                        *old(self),
                        *final(self),
                        proposal_id,
                        ProposalStatus::Expired,
                    )
                },
                Err(e) => {
                    &&& *final(self) == *old(self)
                    &&& match old(self).spec_proposal(proposal_id) {
                        None => e == VaultError::ProposalNotFound,
                        Some(p0) => if !(p0.status is Pending || p0.status is Approved) {
                            e == VaultError::ProposalNotPending
                        } else if now <= p0.expires_at {
                            e == VaultError::ProposalNotExpired
                        } else {
                            false
                        },
                    }
                },
            },
    {
        if proposal_id == 0 || proposal_id > self.proposals.len() as u64 {
            return Err(VaultError::ProposalNotFound);
        }
        let idx = (proposal_id - 1) as usize;
        let mut can_lapse: bool = false;
        let mut expires_at: u64 = 0;
        match &self.proposals[idx] {
            None => {
                return Err(VaultError::ProposalNotFound);
            },
            Some(p) => {
                can_lapse = match p.status {
                    ProposalStatus::Pending => true,
                    ProposalStatus::Approved => true,
                    _ => false,
                };
                expires_at = p.expires_at;
            },
        }
        if !can_lapse {
            return Err(VaultError::ProposalNotPending);
        }
        if now <= expires_at {
            return Err(VaultError::ProposalNotExpired);
        }
        match &mut self.proposals[idx] {
            Some(p) => {
                p.status = ProposalStatus::Expired;
            },
            None => {
                assert(false);
            },
        }
        Ok(())
    }

    /// Purges one expired proposal after its grace period: the stored
    /// record is removed and later lookups report it missing.
    pub fn cleanup_expired_proposal(&mut self, proposal_id: u64, now: u64) -> (r: Result<
        (),
        VaultError,
    >)
        requires
            old(self).wf(),
        ensures
            final(self).wf(),
            proposals_step_ok(*old(self), *final(self)),
            match r {
                Ok(()) => {
                    &&& cleanup_ready(*old(self), proposal_id, now)
                    &&& final(self).spec_proposal(proposal_id) is None
                    &&& frame_all_but_proposal(*old(self), *final(self), proposal_id)
                    &&& final(self).audit_log == old(self).audit_log
                },
                Err(e) => {
                    &&& *final(self) == *old(self)
                    &&& match old(self).spec_proposal(proposal_id) {
                        None => e == VaultError::ProposalNotFound,
                        Some(p0) => if !(p0.status is Expired) {
                            e == VaultError::ProposalNotExpired
                        } else if now <= p0.expires_at + old(self).config.grace_period {
                            e == VaultError::GracePeriodNotExpired
                        } else {
                            false
                        },
                    }
                },
            },
    {
        if proposal_id == 0 || proposal_id > self.proposals.len() as u64 {
            return Err(VaultError::ProposalNotFound);
        }
        let idx = (proposal_id - 1) as usize;
        let mut is_expired: bool = false;
        let mut expires_at: u64 = 0;
        match &self.proposals[idx] {
            None => {
                return Err(VaultError::ProposalNotFound);
            },
            Some(p) => {
                is_expired = match p.status {
                    ProposalStatus::Expired => true,
                    _ => false,
                };
                expires_at = p.expires_at;
            },
        }
        if !is_expired {
            return Err(VaultError::ProposalNotExpired);
        }
        if now as u128 <= expires_at as u128 + self.config.grace_period as u128 {
            return Err(VaultError::GracePeriodNotExpired);
        }
        self.proposals[idx] = None;
        Ok(())
    }

    /// Purges every ready proposal in the list and reports how many were
    /// removed; entries that are missing, not expired, repeated, or still
    /// in their grace period are skipped.
    pub fn cleanup_expired_proposals(&mut self, proposal_ids: &Vec<u64>, now: u64) -> (r: u64)
        requires
            old(self).wf(),
        ensures
            final(self).wf(),
            proposals_step_ok(*old(self), *final(self)),
            r == spec_batch_cleaned(*old(self), proposal_ids@, now, proposal_ids@.len() as int),
            forall|id: u64|
                final(self).spec_proposal(id) == if cleanup_ready(*old(self), id, now)
                    && proposal_ids@.contains(id) {
                    None::<Proposal>
                } else {
                    old(self).spec_proposal(id)
                },
            final(self).proposals@.len() == old(self).proposals@.len(),
            final(self).initialized == old(self).initialized,
            final(self).config == old(self).config,
            final(self).roles == old(self).roles,
            final(self).delegations == old(self).delegations,
            final(self).daily_spent == old(self).daily_spent,
            final(self).weekly_spent == old(self).weekly_spent,
            final(self).velocity == old(self).velocity,
            final(self).retries == old(self).retries,
            final(self).audit_log == old(self).audit_log,
            final(self).list_mode == old(self).list_mode,
            final(self).whitelist == old(self).whitelist,
            final(self).blacklist == old(self).blacklist,
            final(self).cancellations == old(self).cancellations,
    {
        let ghost pre = *old(self);
        let ghost ids = proposal_ids@;
        let mut cleaned: u64 = 0;
        let mut i: usize = 0;
        while i < proposal_ids.len()
            invariant
                0 <= i <= ids.len(),
                ids == proposal_ids@,
                self.wf(),
                proposals_step_ok(pre, *self),
                cleaned == spec_batch_cleaned(pre, ids, now, i as int),
                cleaned <= i,
                forall|id: u64|
                    self.spec_proposal(id) == if cleanup_ready(pre, id, now) && ids.take(
                        i as int,
                    ).contains(id) {
                        None::<Proposal>
                    } else {
                        pre.spec_proposal(id)
                    },
                self.proposals@.len() == pre.proposals@.len(),
                self.initialized == pre.initialized,
                self.config == pre.config,
                self.roles == pre.roles,
                self.delegations == pre.delegations,
                self.daily_spent == pre.daily_spent,
                self.weekly_spent == pre.weekly_spent,
                self.velocity == pre.velocity,
                self.retries == pre.retries,
                self.audit_log == pre.audit_log,
                self.list_mode == pre.list_mode,
                self.whitelist == pre.whitelist,
                self.blacklist == pre.blacklist,
                self.cancellations == pre.cancellations,
            decreases ids.len() - i,
        {
            let id = proposal_ids[i];
            let ghost mid = *self;
            let outcome = self.cleanup_expired_proposal(id, now);
            proof {
                assert(ids.take(i + 1) =~= ids.take(i as int).push(id));
                assert forall|q: u64| ids.take(i + 1).contains(q) implies (ids.take(
                    i as int,
                ).contains(q) || q == id) by {
                    let w = choose|w: int|
                        0 <= w < ids.take(i + 1).len() && #[trigger] ids.take(i + 1)[w] == q;
                    if w < i {
                        assert(ids.take(i as int)[w] == q);
                    }
                }
                if outcome is Ok {
                    assert(cleanup_ready(mid, id, now));
                    if !(cleanup_ready(pre, id, now) && !ids.take(i as int).contains(id)) {
                        assert(mid.spec_proposal(id) != pre.spec_proposal(id)
                            || !cleanup_ready(pre, id, now));
                        assert(false);
                    }
                } else {
                    if cleanup_ready(pre, id, now) && !ids.take(i as int).contains(id) {
                        assert(mid.spec_proposal(id) == pre.spec_proposal(id));
                        assert(cleanup_ready(mid, id, now));
                        assert(false);
                    }
                }
                assert forall|q: u64| #[trigger]
                    self.spec_proposal(q) == (if cleanup_ready(pre, q, now) && ids.take(
                    i + 1,
                ).contains(q) {
                    None::<Proposal>
                } else {
                    pre.spec_proposal(q)
                }) by {
                    if q == id {
                        if outcome is Ok {
                            assert(ids.take(i + 1)[i as int] == id);
                            assert(ids.take(i + 1).contains(id));
                        }
                    } else {
                        assert(self.spec_proposal(q) == mid.spec_proposal(q));
                        assert(ids.take(i + 1).contains(q) == ids.take(i as int).contains(q));
                    }
                }
            }
            if outcome.is_ok() {
                cleaned = cleaned + 1;
            }
            i = i + 1;
        }
        proof {
            assert(ids.take(ids.len() as int) =~= ids);
        }
        cleaned
    }

    /// Moves a pending proposal's voting deadline; admin only.
    pub fn extend_voting_deadline(
        &mut self,
        admin: u64,
        proposal_id: u64,
        new_deadline: u64,
    ) -> (r: Result<(), VaultError>)
        requires
            old(self).wf(),
        ensures
            final(self).wf(),
            proposals_step_ok(*old(self), *final(self)),
            match r {
                Ok(()) => {
                    &&& spec_role_of(old(self).roles@, admin) is Admin
                    &&& old(self).spec_proposal(proposal_id) matches Some(p0) && {
                        &&& p0.status is Pending
                        &&& final(self).spec_proposal(proposal_id) matches Some(p1) && {
                            &&& p1.voting_deadline == new_deadline
                            &&& p1.id == p0.id
                            &&& p1.proposer == p0.proposer
                            &&& p1.recipient == p0.recipient
                            &&& p1.token == p0.token
                            &&& p1.amount == p0.amount
                            &&& p1.memo == p0.memo
                            &&& p1.priority == p0.priority
                            &&& p1.conditions@ == p0.conditions@
                            &&& p1.condition_logic == p0.condition_logic
                            &&& p1.created_at == p0.created_at
                            &&& p1.expires_at == p0.expires_at
                            &&& p1.snapshot_signers@ == p0.snapshot_signers@
                            &&& p1.approvals@ == p0.approvals@
                            &&& p1.abstentions@ == p0.abstentions@
                            &&& p1.unlock_ledger == p0.unlock_ledger
                            &&& p1.status == p0.status
                        }
                    }
                    &&& frame_all_but_proposal(*old(self), *final(self), proposal_id)
                    &&& final(self).audit_log == old(self).audit_log
                },
                Err(e) => {
                    &&& *final(self) == *old(self)
                    &&& if !(spec_role_of(old(self).roles@, admin) is Admin) {
                        e == VaultError::Unauthorized
                    } else {
                        match old(self).spec_proposal(proposal_id) {
                            None => e == VaultError::ProposalNotFound,
                            Some(p0) => !(p0.status is Pending) && e
                                == VaultError::ProposalNotPending,
                        }
                    }
                },
            },
    {
        let role = lookup_role(&self.roles, admin);
        let is_admin = match role {
            Role::Admin => true,
            _ => false,
        };
        if !is_admin {
            return Err(VaultError::Unauthorized);
        }
        if proposal_id == 0 || proposal_id > self.proposals.len() as u64 {
            return Err(VaultError::ProposalNotFound);
        }
        let idx = (proposal_id - 1) as usize;
        let mut is_pending: bool = false;
        match &self.proposals[idx] {
            None => {
                return Err(VaultError::ProposalNotFound);
            },
            Some(p) => {
                is_pending = match p.status {
                    ProposalStatus::Pending => true,
                    _ => false,
                };
            },
        }
        if !is_pending {
            return Err(VaultError::ProposalNotPending);
        }
        match &mut self.proposals[idx] {
            Some(p) => {
                p.voting_deadline = new_deadline;
            },
            None => {
                assert(false);
            },
        }
        Ok(())
    }

    /// Changes how long new proposals live and how long expired ones linger
    /// before cleanup; admin only, and both periods must be at least one
    /// hour of ledgers (720).
    pub fn update_expiration_config(
        &mut self,
        admin: u64,
        expiration_period: u64,
        grace_period: u64,
    ) -> (r: Result<(), VaultError>)
        requires
            old(self).wf(),
        ensures
            final(self).wf(),
            proposals_step_ok(*old(self), *final(self)),
            match r {
                Ok(()) => {
                    &&& old(self).initialized
                    &&& spec_role_of(old(self).roles@, admin) is Admin
                    &&& expiration_period >= 720 && grace_period >= 720
                    &&& final(self).config.expiration_period == expiration_period
                    &&& final(self).config.grace_period == grace_period
                    &&& final(self).config.signers == old(self).config.signers
                    &&& final(self).config.threshold == old(self).config.threshold
                    &&& final(self).config.quorum == old(self).config.quorum
                    &&& final(self).config.spending_limit == old(self).config.spending_limit
                    &&& final(self).config.daily_limit == old(self).config.daily_limit
                    &&& final(self).config.weekly_limit == old(self).config.weekly_limit
                    &&& final(self).config.timelock_threshold
                        == old(self).config.timelock_threshold
                    &&& final(self).config.timelock_delay == old(self).config.timelock_delay
                    &&& final(self).config.velocity_limit == old(self).config.velocity_limit
                    &&& final(self).config.threshold_strategy
                        == old(self).config.threshold_strategy
                    &&& final(self).config.default_voting_deadline
                        == old(self).config.default_voting_deadline
                    &&& final(self).config.retry_config == old(self).config.retry_config
                    &&& final(self).initialized == old(self).initialized
                    &&& final(self).roles == old(self).roles
                    &&& final(self).proposals == old(self).proposals
                    &&& final(self).delegations == old(self).delegations
                    &&& final(self).daily_spent == old(self).daily_spent
                    &&& final(self).weekly_spent == old(self).weekly_spent
                    &&& final(self).velocity == old(self).velocity
                    &&& final(self).retries == old(self).retries
                    &&& final(self).audit_log == old(self).audit_log
                    &&& final(self).list_mode == old(self).list_mode
                    &&& final(self).whitelist == old(self).whitelist
                    &&& final(self).blacklist == old(self).blacklist
                    &&& final(self).cancellations == old(self).cancellations
                },
                Err(e) => {
                    &&& *final(self) == *old(self)
                    &&& if !old(self).initialized {
                        e == VaultError::NotInitialized
                    } else if !(spec_role_of(old(self).roles@, admin) is Admin) {
                        e == VaultError::Unauthorized
                    } else if expiration_period < 720 {
                        e == VaultError::InvalidExpirationPeriod
                    } else if grace_period < 720 {
                        e == VaultError::InvalidGracePeriod
                    } else {
                        false
                    }
                },
            },
    {
        if !self.initialized {
            return Err(VaultError::NotInitialized);
        }
        let role = lookup_role(&self.roles, admin);
        let is_admin = match role {
            Role::Admin => true,
            _ => false,
        };
        if !is_admin {
            return Err(VaultError::Unauthorized);
        }
        if expiration_period < 720 {
            return Err(VaultError::InvalidExpirationPeriod);
        }
        if grace_period < 720 {
            return Err(VaultError::InvalidGracePeriod);
        }
        self.config.expiration_period = expiration_period;
        self.config.grace_period = grace_period;
        Ok(())
    }
}

/// A vote on a proposal that is no longer pending fails with
/// `ProposalNotPending` and changes nothing: stated under the eligibility
/// the earlier checks demand (an initialized vault, a voting role, a voter
/// in the snapshot), where that error is the one returned. In particular,
/// no vote ever moves a proposal out of a terminal status.
pub proof fn lemma_vote_on_settled_proposal_fails(
    pre: VaultDAO,
    post: VaultDAO,
    r: Result<(), VaultError>,
    signer: u64,
    proposal_id: u64,
    approve: bool,
    now: u64,
)
    requires
        vote_transition(pre, post, r, signer, proposal_id, approve, now),
        pre.initialized,
        can_act(spec_role_of(pre.roles@, signer)),
        pre.spec_proposal(proposal_id) matches Some(p0) && {
            &&& p0.snapshot_signers@.contains(signer)
            &&& !(p0.status is Pending)
        },
    ensures
        r == Err::<(), VaultError>(VaultError::ProposalNotPending),
        post == pre,
{
}

/// The law against double voting: once any vote on a proposal has been
/// recorded for an effective voter, a further vote through any signer that
/// resolves to that same effective voter — the signer themselves, or a
/// different signer whose delegation chain lands on them — fails with
/// `AlreadyApproved` and changes nothing.
pub proof fn lemma_no_double_vote(
    pre: VaultDAO,
    post: VaultDAO,
    r: Result<(), VaultError>,
    signer: u64,
    proposal_id: u64,
    approve: bool,
    now: u64,
    eff: u64,
)
    requires
        vote_transition(pre, post, r, signer, proposal_id, approve, now),
        vote_precheck_error(pre, signer, proposal_id) is None,
        spec_effective_voter(pre.delegations@, signer, now) == Ok::<u64, VaultError>(eff),
        pre.spec_proposal(proposal_id) matches Some(p0) && {
            &&& now <= p0.expires_at
            &&& (p0.voting_deadline == 0 || now <= p0.voting_deadline)
            &&& has_voted(p0, eff)
        },
    ensures
        r == Err::<(), VaultError>(VaultError::AlreadyApproved),
        post == pre,
{
}

/// The law behind the `Approved` transition: a vote that moves a pending
/// proposal to `Approved` leaves it with at least the required number of
/// approvals AND a satisfied (or disabled) quorum — neither alone
/// suffices when the quorum is enabled.
pub proof fn lemma_approval_needs_threshold_and_quorum(
    pre: VaultDAO,
    post: VaultDAO,
    signer: u64,
    proposal_id: u64,
    approve: bool,
    now: u64,
)
    requires
        vote_transition(pre, post, Ok(()), signer, proposal_id, approve, now),
        post.spec_proposal(proposal_id) matches Some(p1) && p1.status is Approved,
    ensures
        post.spec_proposal(proposal_id) matches Some(p1) && (pre.spec_proposal(proposal_id)
            matches Some(p0) && {
            &&& p1.approvals@.len() >= spec_required_approvals(pre.config, p0.amount)
            &&& quorum_met(pre.config, p1)
        }),
{
}

/// The converse direction of the same law: a vote that leaves either the
/// threshold or an enabled quorum unmet leaves the proposal `Pending`.
pub proof fn lemma_no_approval_below_requirements(
    pre: VaultDAO,
    post: VaultDAO,
    signer: u64,
    proposal_id: u64,
    approve: bool,
    now: u64,
)
    requires
        vote_transition(pre, post, Ok(()), signer, proposal_id, approve, now),
        post.spec_proposal(proposal_id) matches Some(p1) && !vote_requirements_met(pre.config, p1),
    ensures
        post.spec_proposal(proposal_id) matches Some(p1) && p1.status is Pending,
{
}

} // verus!
