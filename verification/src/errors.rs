//! Error taxonomy of the governance engine.
//!
//! Every fallible entry point reports exactly one of these variants; the
//! contracts on the engine state for each variant when it is returned.

use vstd::prelude::*;

verus! {

/// Everything that can go wrong in a vault operation.
#[derive(Clone, Copy, Debug, PartialEq, Eq, Structural)]
pub enum VaultError {
    // Initialization
    /// The vault has already been initialized.
    AlreadyInitialized,
    /// The vault has not been initialized yet.
    NotInitialized,
    /// The signer set is empty.
    NoSigners,
    /// The threshold must be at least 1.
    ThresholdTooLow,
    /// The threshold cannot exceed the number of signers.
    ThresholdTooHigh,
    /// The quorum cannot exceed the number of signers.
    QuorumTooHigh,

    // Authorization
    /// The caller is not authorized for this action.
    Unauthorized,
    /// The caller lacks the required role.
    InsufficientRole,
    /// The voter was not a signer when the proposal was created.
    VoterNotInSnapshot,

    // Proposal state
    /// No proposal exists with this id.
    ProposalNotFound,
    /// The proposal is not in pending status.
    ProposalNotPending,
    /// The proposal is not approved (threshold or quorum not met).
    ProposalNotApproved,
    /// The proposal has already been executed.
    ProposalAlreadyExecuted,
    /// The proposal has passed its expiry ledger.
    ProposalExpired,
    /// The proposal has already been cancelled.
    ProposalAlreadyCancelled,
    /// The voting deadline has passed.
    VotingDeadlinePassed,
    /// The proposal has not reached its expiry ledger yet.
    ProposalNotExpired,
    /// The grace period after expiry has not elapsed yet.
    GracePeriodNotExpired,

    // Voting
    /// The effective voter has already voted on this proposal.
    AlreadyApproved,

    // Spending limits
    /// The amount must be positive.
    InvalidAmount,
    /// The amount exceeds the per-proposal spending limit.
    ExceedsProposalLimit,
    /// The amount would exceed the daily spending limit.
    ExceedsDailyLimit,
    /// The amount would exceed the weekly spending limit.
    ExceedsWeeklyLimit,
    /// The signer has hit the sliding-window velocity limit.
    VelocityLimitExceeded,

    // Time lock
    /// The time lock on this proposal has not elapsed.
    TimelockNotExpired,

    // Balance
    /// The vault balance does not cover the amount.
    InsufficientBalance,

    // Signer management
    /// The address is already a signer.
    SignerAlreadyExists,
    /// The address is not a signer.
    SignerNotFound,
    /// Removing the signer would make the threshold unreachable.
    CannotRemoveSigner,

    // Recipient lists
    /// The recipient is not on the whitelist.
    RecipientNotWhitelisted,
    /// The recipient is on the blacklist.
    RecipientBlacklisted,
    /// The address is already on the list.
    AddressAlreadyOnList,
    /// The address is not on the list.
    AddressNotOnList,

    // Execution conditions
    /// The execution conditions are not satisfied.
    ConditionsNotMet,

    // Retry
    /// Retries are disabled, exhausted, or the backoff has not elapsed.
    RetryError,

    // Delegation
    /// A signer cannot delegate to themselves.
    CannotDelegateToSelf,
    /// The delegator is not a signer.
    DelegatorNotSigner,
    /// The delegate is not a signer.
    DelegateNotSigner,
    /// The delegator already holds an active delegation.
    DelegationAlreadyExists,
    /// Creating this delegation would close a delegation cycle.
    CircularDelegation,
    /// Delegation resolution exceeded the maximum chain depth.
    DelegationChainTooDeep,
    /// No delegation exists with this id.
    DelegationNotFound,

    // Expiration configuration
    /// The expiration period is too short.
    InvalidExpirationPeriod,
    /// The grace period is too short.
    InvalidGracePeriod,

    // Market operations
    /// The swap output fell below the slippage tolerance.
    SlippageExceeded,
    /// The swap would move the pool price too far.
    PriceImpactTooHigh,
}

} // verus!
