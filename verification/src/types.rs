//! Core data model: configuration, proposals, votes, delegations, audit
//! entries, and the spec-level predicates that the engine's contracts use.
//!
//! Identities (signers, recipients, tokens) and short labels (memos, reasons)
//! are plain `u64` handles assigned by the host. Amounts are `i128`; ledger
//! time is a monotonically increasing `u64` supplied by the caller.

use vstd::prelude::*;

verus! {

/// Permissions assigned to vault participants.
#[derive(Clone, Copy, Debug, PartialEq, Eq, Structural)]
pub enum Role {
    /// Read-only access (default for unknown identities).
    Member,
    /// Authorized to initiate and approve transfer proposals.
    Treasurer,
    /// Full operational control: manages roles, signers, and configuration.
    Admin,
}

/// The lifecycle states of a proposal.
#[derive(Clone, Copy, Debug, PartialEq, Eq, Structural)]
pub enum ProposalStatus {
    /// Initial state, awaiting votes.
    Pending,
    /// Voting threshold and quorum met; ready for execution.
    Approved,
    /// Funds transfer authorized and the record finalized. Terminal.
    Executed,
    /// Rejected by an admin or the proposer, or by a missed deadline. Terminal.
    Rejected,
    /// Passed its expiry ledger without being executed. Terminal.
    Expired,
    /// Withdrawn by the proposer or an admin, with spending refunded. Terminal.
    Cancelled,
}

/// Proposal urgency level.
#[derive(Clone, Copy, Debug, PartialEq, Eq, Structural)]
pub enum Priority {
    Low,
    Normal,
    High,
    Critical,
}

/// A single execution condition attached to a proposal.
#[derive(Clone, Copy, Debug, PartialEq, Eq, Structural)]
pub enum Condition {
    /// Execute only while the vault balance is above this amount.
    BalanceAbove(i128),
    /// Execute only after this ledger sequence.
    DateAfter(u64),
    /// Execute only before this ledger sequence.
    DateBefore(u64),
}

/// How multiple execution conditions combine.
#[derive(Clone, Copy, Debug, PartialEq, Eq, Structural)]
pub enum ConditionLogic {
    /// All conditions must hold.
    And,
    /// At least one condition must hold.
    Or,
}

/// Recipient list access mode.
#[derive(Clone, Copy, Debug, PartialEq, Eq, Structural)]
pub enum ListMode {
    /// No restriction on recipients.
    Disabled,
    /// Only whitelisted recipients are allowed.
    Whitelist,
    /// Blacklisted recipients are blocked.
    Blacklist,
}

/// The kind of privileged action recorded in an audit entry.
#[derive(Clone, Copy, Debug, PartialEq, Eq, Structural)]
pub enum AuditAction {
    Initialize,
    ProposeTransfer,
    ApproveProposal,
    ExecuteProposal,
    RejectProposal,
    SetRole,
    AddSigner,
    RemoveSigner,
    UpdateLimits,
    UpdateThreshold,
}

/// Sliding-window cap on how many actions one signer may take.
#[derive(Clone, Copy, Debug, PartialEq, Eq, Structural)]
pub struct VelocityConfig {
    /// Maximum number of actions allowed inside the window.
    pub limit: u32,
    /// Window length in ledger-time units.
    pub window: u64,
}

/// Automatic retry policy for transiently failed executions.
#[derive(Clone, Copy, Debug, PartialEq, Eq, Structural)]
pub struct RetryConfig {
    /// Whether retry scheduling is enabled.
    pub enabled: bool,
    /// Maximum number of retry attempts per proposal.
    pub max_retries: u32,
    /// Backoff before the first retry, in ledgers; doubles on each failure.
    pub initial_backoff_ledgers: u64,
}

/// Per-proposal retry bookkeeping, created on the first transient failure.
#[derive(Clone, Copy, Debug, PartialEq, Eq, Structural)]
pub struct RetryState {
    /// Number of transient failures recorded so far.
    pub retry_count: u32,
    /// Earliest ledger at which the next attempt is allowed.
    pub next_retry_ledger: u64,
    /// Ledger of the most recent failed attempt.
    pub last_retry_ledger: u64,
}

/// One tier of an amount-based threshold strategy.
#[derive(Clone, Copy, Debug, PartialEq, Eq, Structural)]
pub struct AmountTier {
    /// The tier applies to amounts at or above this bound.
    pub amount: i128,
    /// Approvals required when this tier applies.
    pub approvals: u32,
}

/// Time-based threshold parameters.
///
/// The reduction is deliberately never applied: the engine always uses
/// `initial_threshold`. Automatic threshold decay over time weakens a vault
/// precisely when its signers are inattentive, so it is kept as recorded
/// intent only.
#[derive(Clone, Copy, Debug, PartialEq, Eq, Structural)]
pub struct TimeBasedThreshold {
    /// Threshold in force from creation.
    pub initial_threshold: u32,
    /// Recorded reduced threshold (never applied).
    pub reduced_threshold: u32,
    /// Recorded delay before reduction (never applied).
    pub reduction_delay: u64,
}

/// Strategy for computing how many approvals a proposal needs.
#[derive(Clone, Debug)]
pub enum ThresholdStrategy {
    /// Use the configured threshold unchanged.
    Fixed,
    /// `ceil(signers * percentage / 100)`, but never less than 1.
    Percentage(u32),
    /// Tiers consulted in order; the last tier whose bound does not exceed
    /// the amount applies, the configured threshold otherwise.
    AmountBased(Vec<AmountTier>),
    /// Uses `initial_threshold`; the reduction is recorded, never applied.
    TimeBased(TimeBasedThreshold),
}

/// Vault-wide configuration, fixed at initialization and amended by admins.
#[derive(Clone, Debug)]
pub struct InitConfig {
    /// The authorized signers.
    pub signers: Vec<u64>,
    /// Required number of approvals (M in M-of-N).
    pub threshold: u32,
    /// Minimum number of votes (approvals plus abstentions) before the
    /// threshold is evaluated. 0 disables the quorum.
    pub quorum: u32,
    /// Maximum amount of a single proposal.
    pub spending_limit: i128,
    /// Maximum aggregate amount reserved per day bucket.
    pub daily_limit: i128,
    /// Maximum aggregate amount reserved per week bucket.
    pub weekly_limit: i128,
    /// Amounts at or above this bound get a time lock on approval.
    pub timelock_threshold: i128,
    /// Time-lock delay in ledgers.
    pub timelock_delay: u64,
    /// Per-signer action rate limit.
    pub velocity_limit: VelocityConfig,
    /// How the required approval count is computed.
    pub threshold_strategy: ThresholdStrategy,
    /// Voting deadline for new proposals, in ledgers after creation.
    /// 0 means no deadline.
    pub default_voting_deadline: u64,
    /// Retry policy for transiently failed executions.
    pub retry_config: RetryConfig,
    /// Ledgers until a new proposal expires.
    pub expiration_period: u64,
    /// Ledgers after expiry before an expired proposal may be cleaned up.
    pub grace_period: u64,
}

/// A transfer proposal and its voting record.
#[derive(Clone, Debug)]
pub struct Proposal {
    /// Unique id, assigned in creation order starting at 1.
    pub id: u64,
    /// Identity that created the proposal.
    pub proposer: u64,
    /// Recipient of the transfer.
    pub recipient: u64,
    /// Asset identifier.
    pub token: u64,
    /// Amount to transfer; always positive.
    pub amount: i128,
    /// Short label supplied by the proposer.
    pub memo: u64,
    /// Effective voters that approved, in voting order, without duplicates.
    pub approvals: Vec<u64>,
    /// Effective voters that abstained, in voting order, without duplicates
    /// and disjoint from `approvals`.
    pub abstentions: Vec<u64>,
    /// Current lifecycle state.
    pub status: ProposalStatus,
    /// Urgency level.
    pub priority: Priority,
    /// Execution conditions; empty means unconditional.
    pub conditions: Vec<Condition>,
    /// How the conditions combine.
    pub condition_logic: ConditionLogic,
    /// Ledger at creation.
    pub created_at: u64,
    /// Ledger after which the proposal is expired.
    pub expires_at: u64,
    /// Earliest ledger at which an approved proposal may execute;
    /// 0 means no time lock.
    pub unlock_ledger: u64,
    /// The signer set frozen at creation; votes are validated against it.
    pub snapshot_signers: Vec<u64>,
    /// Ledger after which voting is rejected; 0 means no deadline.
    pub voting_deadline: u64,
}

/// A grant of voting power from one signer to another.
#[derive(Clone, Copy, Debug, PartialEq, Eq, Structural)]
pub struct Delegation {
    /// Unique id, assigned in creation order starting at 1.
    pub id: u64,
    /// The signer handing their vote over.
    pub delegator: u64,
    /// The signer voting on the delegator's behalf.
    pub delegate: u64,
    /// Ledger at which the delegation lapses; 0 means permanent.
    pub expiry_ledger: u64,
    /// False once revoked; history is never deleted.
    pub is_active: bool,
    /// Ledger at creation.
    pub created_at: u64,
}

/// One entry of the append-only, hash-linked audit log.
#[derive(Clone, Copy, Debug, PartialEq, Eq, Structural)]
pub struct AuditEntry {
    /// Unique id, assigned in append order starting at 1.
    pub id: u64,
    /// The action recorded.
    pub action: AuditAction,
    /// Who performed it.
    pub actor: u64,
    /// What it acted on (a proposal id, or 0).
    pub target: u64,
    /// Ledger at which it happened.
    pub timestamp: u64,
    /// Hash of the previous entry; 0 for the first entry.
    pub prev_hash: u64,
    /// Hash of this entry, computed over all its other fields.
    pub hash: u64,
}

/// Audit record written when a proposal is cancelled.
#[derive(Clone, Copy, Debug, PartialEq, Eq, Structural)]
pub struct CancellationRecord {
    /// The cancelled proposal.
    pub proposal_id: u64,
    /// Who cancelled it.
    pub cancelled_by: u64,
    /// Short label giving the reason.
    pub reason: u64,
    /// Ledger at cancellation.
    pub cancelled_at_ledger: u64,
    /// Amount handed back to the day and week counters.
    pub refunded_amount: i128,
}

/// A sequence holds no element twice.
pub open spec fn no_duplicates(s: Seq<u64>) -> bool {
    forall|i: int, j: int| 0 <= i < j < s.len() ==> s[i] != s[j]
}

/// Two sequences share no element.
pub open spec fn seqs_disjoint(a: Seq<u64>, b: Seq<u64>) -> bool {
    forall|i: int, j: int| 0 <= i < a.len() && 0 <= j < b.len() ==> a[i] != b[j]
}

/// A voter has already been counted on this proposal, either way.
pub open spec fn has_voted(p: Proposal, voter: u64) -> bool {
    p.approvals@.contains(voter) || p.abstentions@.contains(voter)
}

/// Structural well-formedness of a proposal: a positive amount and a clean
/// voting record.
pub open spec fn proposal_wf(p: Proposal) -> bool {
    &&& p.amount > 0
    &&& no_duplicates(p.approvals@)
    &&& no_duplicates(p.abstentions@)
    &&& seqs_disjoint(p.approvals@, p.abstentions@)
}

/// The configuration invariant: a non-empty set of unique signers, a
/// reachable threshold, a quorum within the signer count, and positive
/// limits.
pub open spec fn config_valid(c: InitConfig) -> bool {
    &&& c.signers@.len() > 0
    &&& no_duplicates(c.signers@)
    &&& 1 <= c.threshold <= c.signers@.len()
    &&& c.quorum <= c.signers@.len()
    &&& c.spending_limit > 0
    &&& c.daily_limit > 0
    &&& c.weekly_limit > 0
}

/// The configuration fields that no signer, threshold, quorum or limit
/// update ever touches: time lock, velocity, strategy, voting deadline,
/// retry policy, and the expiration windows. Stated by every such update so
/// that changing one setting provably changes nothing else.
pub open spec fn config_policy_eq(a: InitConfig, b: InitConfig) -> bool {
    &&& a.timelock_threshold == b.timelock_threshold
    &&& a.timelock_delay == b.timelock_delay
    &&& a.velocity_limit == b.velocity_limit
    &&& a.threshold_strategy == b.threshold_strategy
    &&& a.default_voting_deadline == b.default_voting_deadline
    &&& a.retry_config == b.retry_config
    &&& a.expiration_period == b.expiration_period
    &&& a.grace_period == b.grace_period
}

/// These four states admit no further transition.
pub open spec fn is_terminal(s: ProposalStatus) -> bool {
    s is Executed || s is Rejected || s is Expired || s is Cancelled
}

/// The proposal state machine: `Pending` may move to `Approved`, `Rejected`,
/// `Expired` or `Cancelled`; `Approved` may move to `Executed` or `Expired`;
/// nothing else moves.
pub open spec fn status_step_allowed(from: ProposalStatus, to: ProposalStatus) -> bool {
    ||| to == from
    ||| from is Pending && (to is Approved || to is Rejected || to is Expired
        || to is Cancelled)
    ||| from is Approved && (to is Executed || to is Expired)
}

/// Once a proposal reaches a terminal status, no allowed step changes it.
pub proof fn lemma_terminal_status_is_final(from: ProposalStatus, to: ProposalStatus)
    requires
        is_terminal(from),
        status_step_allowed(from, to),
    ensures
        to == from,
{
}

/// The tier scan of an amount-based strategy: tiers are consulted in order
/// and the last tier whose bound does not exceed the amount applies.
pub open spec fn tier_scan(tiers: Seq<AmountTier>, amount: i128, current: u32) -> u32
    decreases tiers.len(),
{
    if tiers.len() == 0 {
        current
    } else {
        let next = if tiers[0].amount <= amount {
            tiers[0].approvals
        } else {
            current
        };
        tier_scan(tiers.skip(1), amount, next)
    }
}

/// How many approvals a proposal of this amount needs under the configured
/// strategy. A percentage strategy rounds up, never asks for fewer than one
/// approval, and saturates at `u32::MAX`.
pub open spec fn spec_required_approvals(c: InitConfig, amount: i128) -> u32 {
    match c.threshold_strategy {
        ThresholdStrategy::Fixed => c.threshold,
        ThresholdStrategy::Percentage(p) => {
            let raw = (c.signers@.len() * p + 99) / 100;
            if raw == 0 {
                1u32
            } else if raw > u32::MAX {
                u32::MAX
            } else {
                raw as u32
            }
        },
        ThresholdStrategy::AmountBased(tiers) => tier_scan(tiers@, amount, c.threshold),
        ThresholdStrategy::TimeBased(t) => t.initial_threshold,
    }
}

/// The quorum is disabled, or the total votes cast reach it.
pub open spec fn quorum_met(c: InitConfig, p: Proposal) -> bool {
    c.quorum == 0 || p.approvals@.len() + p.abstentions@.len() >= c.quorum
}

/// Approvals reach the required threshold AND the quorum is satisfied;
/// both must hold for a proposal to become (or stay) approvable.
pub open spec fn vote_requirements_met(c: InitConfig, p: Proposal) -> bool {
    &&& p.approvals@.len() >= spec_required_approvals(c, p.amount)
    &&& quorum_met(c, p)
}

/// Whether one execution condition holds at this balance and time.
pub open spec fn condition_holds(c: Condition, balance: i128, now: u64) -> bool {
    match c {
        Condition::BalanceAbove(t) => balance > t,
        Condition::DateAfter(l) => now > l,
        Condition::DateBefore(l) => now < l,
    }
}

/// Whether a proposal's conditions pass: an empty list always passes,
/// `And` requires every condition, `Or` requires at least one.
pub open spec fn conditions_met(
    conds: Seq<Condition>,
    logic: ConditionLogic,
    balance: i128,
    now: u64,
) -> bool {
    if conds.len() == 0 {
        true
    } else if logic is And {
        forall|i: int| 0 <= i < conds.len() ==> condition_holds(conds[i], balance, now)
    } else {
        exists|i: int| 0 <= i < conds.len() && condition_holds(conds[i], balance, now)
    }
}

/// Computes the required approval count for `amount` under the configured
/// strategy; see `spec_required_approvals` for the exact rule.
pub fn calculate_threshold(c: &InitConfig, amount: i128) -> (r: u32)
    ensures
        r == spec_required_approvals(*c, amount),
{
    match &c.threshold_strategy {
        ThresholdStrategy::Fixed => c.threshold,
        ThresholdStrategy::Percentage(p) => {
            let n: u128 = c.signers.len() as u128;
            let pct: u128 = *p as u128;
            proof {
                assert(n * pct <= (u64::MAX as u128) * (u32::MAX as u128)) by (nonlinear_arith)
                    requires
                        n <= u64::MAX as u128,
                        pct <= u32::MAX as u128,
                ;
            }
            let raw: u128 = (n * pct + 99) / 100;
            if raw == 0 {
                1u32
            } else if raw > u32::MAX as u128 {
                u32::MAX
            } else {
                raw as u32
            }
        },
        ThresholdStrategy::AmountBased(tiers) => {
            let mut current: u32 = c.threshold;
            let mut i: usize = 0;
            proof {
                assert(tiers@.skip(0) =~= tiers@);
            }
            while i < tiers.len()
                invariant
                    0 <= i <= tiers@.len(),
                    tier_scan(tiers@, amount, c.threshold)
                        == tier_scan(tiers@.skip(i as int), amount, current),
                decreases tiers@.len() - i,
            {
                proof {
                    assert(tiers@.skip(i as int).skip(1) =~= tiers@.skip(i as int + 1));
                    assert(tiers@.skip(i as int)[0] == tiers@[i as int]);
                }
                if tiers[i].amount <= amount {
                    current = tiers[i].approvals;
                }
                i = i + 1;
            }
            current
        },
        ThresholdStrategy::TimeBased(t) => t.initial_threshold,
    }
}

/// Evaluates a proposal's execution conditions against the supplied balance
/// and time; see `conditions_met` for the exact rule.
pub fn evaluate_conditions(
    conds: &Vec<Condition>,
    logic: ConditionLogic,
    balance: i128,
    now: u64,
) -> (r: bool)
    ensures
        r == conditions_met(conds@, logic, balance, now),
{
    if conds.len() == 0 {
        return true;
    }
    let want_all = match logic {
        ConditionLogic::And => true,
        ConditionLogic::Or => false,
    };
    let mut i: usize = 0;
    while i < conds.len()
        invariant
            0 <= i <= conds@.len(),
            want_all == (logic is And),
            want_all ==> forall|j: int|
                0 <= j < i ==> condition_holds(conds@[j], balance, now),
            !want_all ==> forall|j: int|
                0 <= j < i ==> !condition_holds(conds@[j], balance, now),
        decreases conds@.len() - i,
    {
        let ok = match conds[i] {
            Condition::BalanceAbove(t) => balance > t,
            Condition::DateAfter(l) => now > l,
            Condition::DateBefore(l) => now < l,
        };
        if want_all && !ok {
            return false;
        }
        if !want_all && ok {
            return true;
        }
        i = i + 1;
    }
    want_all
}

} // verus!
