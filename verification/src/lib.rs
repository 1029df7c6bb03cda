//! A multi-party treasury governance engine.
//!
//! A fixed set of authorized signers collectively approves outgoing transfers
//! before they execute. Proposals are created against rolling spending limits,
//! voted on (optionally through delegated voting power), gated by an approval
//! threshold and a quorum, optionally delayed by a time lock, and executed with
//! conditional retry on transient failure. Every privileged action is recorded
//! in an append-only, hash-linked audit log.
//!
//! The engine is pure state: identities, tokens and memos are plain `u64`
//! handles chosen by the host, amounts are `i128`, and the current ledger time
//! is passed into every entry point as an argument. Reading balances, moving
//! value and authenticating callers are the host's job; the engine decides.

mod admin;
mod audit;
mod delegation;
mod dex;
mod engine;
mod errors;
mod execution;
mod lifecycle;
mod spending;
mod types;

use vstd::prelude::*;

verus! {

pub use audit::compute_audit_hash;
pub use audit::verify_entries;
pub use delegation::MAX_DELEGATION_DEPTH;
pub use dex::PriceImpact;
pub use dex::calculate_apy;
pub use dex::calculate_liquidity_amounts;
pub use dex::calculate_price_impact;
pub use dex::check_price_impact;
pub use dex::estimate_lp_tokens;
pub use dex::sqrt;
pub use dex::validate_slippage;
pub use engine::ExecutionOutcome;
pub use engine::VaultDAO;
pub use errors::VaultError;
pub use types::AmountTier;
pub use types::AuditAction;
pub use types::AuditEntry;
pub use types::CancellationRecord;
pub use types::Condition;
pub use types::ConditionLogic;
pub use types::Delegation;
pub use types::InitConfig;
pub use types::ListMode;
pub use types::Priority;
pub use types::Proposal;
pub use types::ProposalStatus;
pub use types::RetryConfig;
pub use types::RetryState;
pub use types::Role;
pub use types::ThresholdStrategy;
pub use types::TimeBasedThreshold;
pub use types::VelocityConfig;

} // verus!
