//! Execution of approved proposals, with conditional retry on transient
//! failure.
//!
//! The engine checks status, expiry, the time lock, the (re-validated)
//! vote requirements and the retry gate, then lets the supplied balance
//! and the proposal's conditions decide. A transient failure under the
//! retry policy is recorded and reported as a scheduled retry — a success
//! that moves no value — so the bookkeeping survives the failed attempt.

use vstd::prelude::*;

use crate::audit::append_audit;
use crate::engine::ExecutionOutcome;
use crate::engine::VaultDAO;
use crate::engine::audit_extended;
use crate::engine::lookup_retry;
use crate::engine::proposals_step_ok;
use crate::engine::retries_has;
use crate::engine::retries_index;
use crate::engine::retries_unique;
use crate::engine::spec_retry_of;
use crate::errors::VaultError;
use crate::lifecycle::core_fields_eq;
use crate::lifecycle::frame_all_but_proposal;
use crate::lifecycle::lapse_recorded;
use crate::types::AuditAction;
use crate::types::ProposalStatus;
use crate::types::RetryState;
use crate::types::calculate_threshold;
use crate::types::conditions_met;
use crate::types::evaluate_conditions;
use crate::types::vote_requirements_met;

verus! {

/// A retry row with this key at this index determines the retry state.
proof fn lemma_retry_at(s: Seq<(u64, RetryState)>, id: u64, i: int)
    requires
        retries_unique(s),
        0 <= i < s.len(),
        s[i].0 == id,
    ensures
        retries_has(s, id),
        retries_index(s, id) == i,
        spec_retry_of(s, id) == Some(s[i].1),
{
    assert(retries_has(s, id));
    let j = retries_index(s, id);
    assert(0 <= j < s.len() && s[j].0 == id);
    if i != j {
        assert(s[i].0 == s[j].0);
        assert(false);
    }
}

/// Writes a proposal's retry row, replacing an existing row or adding one.
fn store_retry(retries: &mut Vec<(u64, RetryState)>, id: u64, st: RetryState)
    requires
        retries_unique(old(retries)@),
    ensures
        retries_unique(final(retries)@),
        spec_retry_of(final(retries)@, id) == Some(st),
        forall|d: u64|
            d != id ==> spec_retry_of(final(retries)@, d) == spec_retry_of(old(retries)@, d),
{
    let ghost s0 = retries@;
    let mut i: usize = 0;
    while i < retries.len()
        invariant
            0 <= i <= retries@.len(),
            retries@ == s0,
            s0 == old(retries)@,
            retries_unique(s0),
            forall|j: int| 0 <= j < i ==> s0[j].0 != id,
        decreases retries@.len() - i,
    {
        if retries[i].0 == id {
            retries[i] = (id, st);
            proof {
                assert(retries_unique(retries@));
                lemma_retry_at(retries@, id, i as int);
                assert forall|d: u64| d != id implies spec_retry_of(retries@, d) == spec_retry_of(
                    s0,
                    d,
                ) by {
                    if retries_has(s0, d) {
                        let j = retries_index(s0, d);
                        assert(j != i);
                        assert(retries@[j].0 == d);
                        lemma_retry_at(retries@, d, j);
                        lemma_retry_at(s0, d, j);
                    } else {
                        if retries_has(retries@, d) {
                            let j = retries_index(retries@, d);
                            assert(j != i);
                            assert(s0[j].0 == d);
                        }
                    }
                }
            }
            return ;
        }
        i = i + 1;
    }
    proof {
        if retries_has(s0, id) {
            let j = retries_index(s0, id);
            assert(s0[j].0 != id);
        }
    }
    retries.push((id, st));
    proof {
        assert(retries_unique(retries@));
        lemma_retry_at(retries@, id, s0.len() as int);
        assert forall|d: u64| d != id implies spec_retry_of(retries@, d) == spec_retry_of(
            s0,
            d,
        ) by {
            if retries_has(s0, d) {
                let j = retries_index(s0, d);
                assert(retries@[j].0 == d);
                lemma_retry_at(retries@, d, j);
            } else {
                if retries_has(retries@, d) {
                    let j = retries_index(retries@, d);
                    assert(0 <= j < retries@.len() && retries@[j].0 == d);
                    assert(j < s0.len());
                    assert(s0[j].0 == d);
                }
            }
        }
    }
}

/// The backoff doubling factor before retry attempt number `count`:
/// `2^(count - 1)`, capped at `2^10` so the factor can never overflow.
pub open spec fn spec_backoff_mult(count: u32) -> u64 {
    if count <= 1 {
        1u64
    } else if count == 2 {
        2u64
    } else if count == 3 {
        4u64
    } else if count == 4 {
        8u64
    } else if count == 5 {
        16u64
    } else if count == 6 {
        32u64
    } else if count == 7 {
        64u64
    } else if count == 8 {
        128u64
    } else if count == 9 {
        256u64
    } else if count == 10 {
        512u64
    } else {
        1024u64
    }
}

/// Computes the backoff doubling factor; see `spec_backoff_mult`.
fn backoff_mult(count: u32) -> (r: u64)
    ensures
        r == spec_backoff_mult(count),
{
    if count <= 1 {
        1
    } else if count == 2 {
        2
    } else if count == 3 {
        4
    } else if count == 4 {
        8
    } else if count == 5 {
        16
    } else if count == 6 {
        32
    } else if count == 7 {
        64
    } else if count == 8 {
        128
    } else if count == 9 {
        256
    } else if count == 10 {
        512
    } else {
        1024
    }
}

/// The retry count recorded for a proposal; 0 when none is recorded.
pub open spec fn spec_retry_count(pre: VaultDAO, proposal_id: u64) -> u32 {
    match spec_retry_of(pre.retries@, proposal_id) {
        Some(rs) => rs.retry_count,
        None => 0u32,
    }
}

/// Whether recorded retry bookkeeping blocks an execution attempt now:
/// retries already exhausted (while the policy is enabled), or the backoff
/// before the next attempt has not elapsed.
pub open spec fn retry_blocked(pre: VaultDAO, proposal_id: u64, now: u64) -> bool {
    match spec_retry_of(pre.retries@, proposal_id) {
        Some(rs) => rs.retry_count > 0 && ((pre.config.retry_config.enabled && rs.retry_count
            >= pre.config.retry_config.max_retries) || now < rs.next_retry_ledger),
        None => false,
    }
}

/// The retry row for `proposal_id` was set to attempt number `new_count`
/// with exponential backoff from `now`, and nothing else changed.
pub open spec fn retry_armed(
    pre: VaultDAO,
    post: VaultDAO,
    proposal_id: u64,
    new_count: u32,
    now: u64,
) -> bool {
    &&& spec_retry_of(post.retries@, proposal_id) == Some(
        RetryState {
            retry_count: new_count,
            next_retry_ledger: (now + pre.config.retry_config.initial_backoff_ledgers
                * spec_backoff_mult(new_count)) as u64,
            last_retry_ledger: now,
        },
    )
    &&& forall|d: u64|
        d != proposal_id ==> spec_retry_of(post.retries@, d) == spec_retry_of(pre.retries@, d)
    &&& post.initialized == pre.initialized
    &&& post.config == pre.config
    &&& post.roles == pre.roles
    &&& post.proposals == pre.proposals
    &&& post.delegations == pre.delegations
    &&& post.daily_spent == pre.daily_spent
    &&& post.weekly_spent == pre.weekly_spent
    &&& post.velocity == pre.velocity
    &&& post.audit_log == pre.audit_log
    &&& post.list_mode == pre.list_mode
    &&& post.whitelist == pre.whitelist
    &&& post.blacklist == pre.blacklist
    &&& post.cancellations == pre.cancellations
}

/// The full behavior of an execution attempt.
///
/// Checks run in order: initialization, existence, status (`Executed` and
/// other non-`Approved` states are distinct errors), expiry (recorded, then
/// failed — the deliberate lapse transition), the time lock, a re-check of
/// the vote requirements against the current configuration, and the retry
/// gate (exhausted or backoff not elapsed). Then the execution conditions
/// and the balance decide: both fine means the proposal is `Executed`, the
/// action is audited, and the host may move the value. A failed condition
/// or a short balance is a transient failure: with the retry policy off it
/// is reported as the error itself; with it on, the attempt is recorded and
/// a later retry armed — reported as success (`RetryScheduled`) so the
/// bookkeeping survives, unless that attempt already exceeds the retry
/// budget (`RetryError`).
pub open spec fn execute_transition(
    pre: VaultDAO,
    post: VaultDAO,
    r: Result<ExecutionOutcome, VaultError>,
    executor: u64,
    proposal_id: u64,
    now: u64,
    balance: i128,
) -> bool {
    if !pre.initialized {
        r == Err::<ExecutionOutcome, VaultError>(VaultError::NotInitialized) && post == pre
    } else {
        match pre.spec_proposal(proposal_id) {
            None => r == Err::<ExecutionOutcome, VaultError>(VaultError::ProposalNotFound) && post
                == pre,
            Some(p0) => {
                if p0.status is Executed {
                    r == Err::<ExecutionOutcome, VaultError>(VaultError::ProposalAlreadyExecuted)
                        && post == pre
                } else if !(p0.status is Approved) {
                    r == Err::<ExecutionOutcome, VaultError>(VaultError::ProposalNotApproved)
                        && post == pre
                } else if now > p0.expires_at {
                    &&& r == Err::<ExecutionOutcome, VaultError>(VaultError::ProposalExpired)
                    &&& lapse_recorded(pre, post, proposal_id, ProposalStatus::Expired)
                } else if p0.unlock_ledger > 0 && now < p0.unlock_ledger {
                    r == Err::<ExecutionOutcome, VaultError>(VaultError::TimelockNotExpired)
                        && post == pre
                } else if !vote_requirements_met(pre.config, p0) {
                    r == Err::<ExecutionOutcome, VaultError>(VaultError::ProposalNotApproved)
                        && post == pre
                } else if retry_blocked(pre, proposal_id, now) {
                    r == Err::<ExecutionOutcome, VaultError>(VaultError::RetryError) && post == pre
                } else {
                    let cond_ok = conditions_met(p0.conditions@, p0.condition_logic, balance, now);
                    if cond_ok && balance >= p0.amount {
                        &&& r == Ok::<ExecutionOutcome, VaultError>(ExecutionOutcome::Executed)
                        &&& frame_all_but_proposal(pre, post, proposal_id)
                        &&& post.spec_proposal(proposal_id) matches Some(p1) && {
                            &&& core_fields_eq(p0, p1)
                            &&& p1.approvals@ == p0.approvals@
                            &&& p1.abstentions@ == p0.abstentions@
                            &&& p1.unlock_ledger == p0.unlock_ledger
                            &&& p1.status is Executed
                        }
                        &&& audit_extended(
                            pre,
                            post,
                            AuditAction::ExecuteProposal,
                            executor,
                            proposal_id,
                            now,
                        )
                    } else {
                        let transient = if !cond_ok {
                            VaultError::ConditionsNotMet
                        } else {
                            VaultError::InsufficientBalance
                        };
                        if !pre.config.retry_config.enabled {
                            r == Err::<ExecutionOutcome, VaultError>(transient) && post == pre
                        } else if spec_retry_count(pre, proposal_id) + 1
                            > pre.config.retry_config.max_retries {
                            r == Err::<ExecutionOutcome, VaultError>(VaultError::RetryError)
                                && post == pre
                        } else {
                            &&& r == Ok::<ExecutionOutcome, VaultError>(
                                ExecutionOutcome::RetryScheduled,
                            )
                            &&& retry_armed(
                                pre,
                                post,
                                proposal_id,
                                (spec_retry_count(pre, proposal_id) + 1) as u32,
                                now,
                            )
                        }
                    }
                }
            },
        }
    }
}

/// An execution attempt on a proposal that is not `Approved` fails —
/// `ProposalAlreadyExecuted` for an executed one, `ProposalNotApproved`
/// for any other status — and changes nothing. In particular, no attempt
/// ever moves a proposal out of a terminal status.
pub proof fn lemma_execute_on_unapproved_fails(
    pre: VaultDAO,
    post: VaultDAO,
    r: Result<ExecutionOutcome, VaultError>,
    executor: u64,
    proposal_id: u64,
    now: u64,
    balance: i128,
)
    requires
        execute_transition(pre, post, r, executor, proposal_id, now, balance),
        pre.initialized,
        pre.spec_proposal(proposal_id) matches Some(p0) && !(p0.status is Approved),
    ensures
        pre.spec_proposal(proposal_id) matches Some(p0) && r == Err::<
            ExecutionOutcome,
            VaultError,
        >(
            if p0.status is Executed {
                VaultError::ProposalAlreadyExecuted
            } else {
                VaultError::ProposalNotApproved
            },
        ),
        post == pre,
{
}

impl VaultDAO {
    /// Transient failure classes: an execution failing this way is expected
    /// to potentially succeed later without operator intervention, so it
    /// may be retried.
    pub fn is_retryable_error(err: &VaultError) -> (r: bool)
        ensures
            r == (*err is InsufficientBalance || *err is ConditionsNotMet),
    {
        match err {
            VaultError::InsufficientBalance => true,
            VaultError::ConditionsNotMet => true,
            _ => false,
        }
    }

    /// Attempts to execute an approved proposal against the supplied vault
    /// `balance`; on `Ok(Executed)` the host performs the transfer of
    /// `amount` to the recipient, which this engine has checked the balance
    /// covers. See `execute_transition` for every case, including the
    /// retry-scheduling success that means "not executed yet".
    #[verifier::rlimit(100)]
    pub fn execute_proposal(&mut self, executor: u64, proposal_id: u64, now: u64, balance: i128)
        -> (r: Result<ExecutionOutcome, VaultError>)
        requires
            old(self).wf(),
            old(self).audit_log@.len() < u64::MAX,
            now + old(self).config.retry_config.initial_backoff_ledgers * 1024 <= u64::MAX,
        ensures
            final(self).wf(),
            proposals_step_ok(*old(self), *final(self)),
            execute_transition(*old(self), *final(self), r, executor, proposal_id, now, balance),
    {
        if !self.initialized {
            return Err(VaultError::NotInitialized);
        }
        if proposal_id == 0 || proposal_id > self.proposals.len() as u64 {
            return Err(VaultError::ProposalNotFound);
        }
        let idx = (proposal_id - 1) as usize;

        // Read phase.
        let mut is_executed: bool = false;
        let mut is_approved: bool = false;
        let mut expires_at: u64 = 0;
        let mut unlock_ledger: u64 = 0;
        let mut amount: i128 = 0;
        let mut approvals_len: usize = 0;
        let mut abstentions_len: usize = 0;
        let mut cond_ok: bool = false;
        match &self.proposals[idx] {
            None => {
                return Err(VaultError::ProposalNotFound);
            },
            Some(p) => {
                is_executed = match p.status {
                    ProposalStatus::Executed => true,
                    _ => false,
                };
                is_approved = match p.status {
                    ProposalStatus::Approved => true,
                    _ => false,
                };
                expires_at = p.expires_at;
                unlock_ledger = p.unlock_ledger;
                amount = p.amount;
                approvals_len = p.approvals.len();
                abstentions_len = p.abstentions.len();
                cond_ok = evaluate_conditions(&p.conditions, p.condition_logic, balance, now);
            },
        }
        if is_executed {
            return Err(VaultError::ProposalAlreadyExecuted);
        }
        if !is_approved {
            return Err(VaultError::ProposalNotApproved);
        }
        if now > expires_at {
            match &mut self.proposals[idx] {
                Some(p) => {
                    p.status = ProposalStatus::Expired;
                },
                None => {
                    assert(false);
                },
            }
            return Err(VaultError::ProposalExpired);
        }
        if unlock_ledger > 0 && now < unlock_ledger {
            return Err(VaultError::TimelockNotExpired);
        }

        // The vote requirements must still hold under the current
        // configuration.
        let required = calculate_threshold(&self.config, amount);
        let quorum = self.config.quorum;
        let requirements_met = approvals_len as u128 >= required as u128 && (quorum == 0
            || approvals_len as u128 + abstentions_len as u128 >= quorum as u128);
        if !requirements_met {
            return Err(VaultError::ProposalNotApproved);
        }

        // The retry gate.
        let prior = lookup_retry(&self.retries, proposal_id);
        let rcfg = self.config.retry_config;
        match prior {
            Some(rs) => {
                if rs.retry_count > 0 {
                    if rcfg.enabled && rs.retry_count >= rcfg.max_retries {
                        return Err(VaultError::RetryError);
                    }
                    if now < rs.next_retry_ledger {
                        return Err(VaultError::RetryError);
                    }
                }
            },
            None => {},
        }

        if cond_ok && balance >= amount {
            // Authorize the transfer: the proposal is done.
            match &mut self.proposals[idx] {
                Some(p) => {
                    p.status = ProposalStatus::Executed;
                },
                None => {
                    assert(false);
                },
            }
            append_audit(
                &mut self.audit_log,
                AuditAction::ExecuteProposal,
                executor,
                proposal_id,
                now,
            );
            return Ok(ExecutionOutcome::Executed);
        }

        // Transient failure: unmet condition or short balance.
        let transient = if !cond_ok {
            VaultError::ConditionsNotMet
        } else {
            VaultError::InsufficientBalance
        };
        if !rcfg.enabled {
            return Err(transient);
        }
        let prior_count: u32 = match prior {
            Some(rs) => rs.retry_count,
            None => 0,
        };
        if prior_count as u64 + 1 > rcfg.max_retries as u64 {
            return Err(VaultError::RetryError);
        }
        let new_count: u32 = prior_count + 1;
        let mult = backoff_mult(new_count);
        proof {
            assert(mult <= 1024);
            assert(rcfg.initial_backoff_ledgers * mult <= rcfg.initial_backoff_ledgers
                * 1024) by (nonlinear_arith)
                requires
                    mult <= 1024,
                    rcfg.initial_backoff_ledgers >= 0,
            ;
        }
        let backoff: u64 = rcfg.initial_backoff_ledgers * mult;
        store_retry(
            &mut self.retries,
            proposal_id,
            RetryState {
                retry_count: new_count,
                next_retry_ledger: now + backoff,
                last_retry_ledger: now,
            },
        );
        Ok(ExecutionOutcome::RetryScheduled)
    }

    /// Explicitly retries a previously failed execution: rejected when the
    /// retry policy is disabled or the budget is exhausted, and otherwise
    /// exactly an `execute_proposal` call — the backoff itself is enforced
    /// there, the single source of truth for eligibility.
    pub fn retry_execution(&mut self, executor: u64, proposal_id: u64, now: u64, balance: i128)
        -> (r: Result<ExecutionOutcome, VaultError>)
        requires
            old(self).wf(),
            old(self).audit_log@.len() < u64::MAX,
            now + old(self).config.retry_config.initial_backoff_ledgers * 1024 <= u64::MAX,
        ensures
            final(self).wf(),
            proposals_step_ok(*old(self), *final(self)),
            !old(self).initialized ==> r == Err::<ExecutionOutcome, VaultError>(
                VaultError::NotInitialized,
            ) && *final(self) == *old(self),
            old(self).initialized && !old(self).config.retry_config.enabled ==> r == Err::<
                ExecutionOutcome,
                VaultError,
            >(VaultError::RetryError) && *final(self) == *old(self),
            old(self).initialized && old(self).config.retry_config.enabled && spec_retry_count(
                *old(self),
                proposal_id,
            ) >= old(self).config.retry_config.max_retries ==> r == Err::<
                ExecutionOutcome,
                VaultError,
            >(VaultError::RetryError) && *final(self) == *old(self),
            old(self).initialized && old(self).config.retry_config.enabled && spec_retry_count(
                *old(self),
                proposal_id,
            ) < old(self).config.retry_config.max_retries ==> execute_transition(
                *old(self),
                *final(self),
                r,
                executor,
                proposal_id,
                now,
                balance,
            ),
    {
        if !self.initialized {
            return Err(VaultError::NotInitialized);
        }
        if !self.config.retry_config.enabled {
            return Err(VaultError::RetryError);
        }
        let prior_count: u32 = match lookup_retry(&self.retries, proposal_id) {
            Some(rs) => rs.retry_count,
            None => 0,
        };
        if prior_count >= self.config.retry_config.max_retries {
            return Err(VaultError::RetryError);
        }
        self.execute_proposal(executor, proposal_id, now, balance)
    }
}

} // verus!
