//! Delegation of voting power and its bounded resolution.
//!
//! A signer may hand their vote to another signer. Resolution follows the
//! chain of live delegations from a signer to its effective voter, walking a
//! small, fixed number of hops; a chain that still continues at the depth
//! bound is an explicit error, never silently truncated. Cycle detection is
//! a bounded forward walk done when a delegation is created, so a cycle can
//! never be written.

use vstd::prelude::*;

use crate::errors::VaultError;
use crate::types::Delegation;

verus! {

/// Depth bound of delegation resolution. The walk counts each hop it is
/// about to take, starting at 1; a walk whose hop counter would reach this
/// bound fails with `DelegationChainTooDeep`, so at most
/// `MAX_DELEGATION_DEPTH - 1` hops ever succeed.
pub const MAX_DELEGATION_DEPTH: u32 = 3;

/// A delegation is live at `now` when it has not been revoked and has not
/// lapsed (a non-zero expiry at or before `now` has lapsed).
pub open spec fn delegation_live(d: Delegation, now: u64) -> bool {
    d.is_active && (d.expiry_ledger == 0 || d.expiry_ledger > now)
}

/// The delegate of the first live delegation made by `who`, scanning the
/// records in creation order; `None` when `who` keeps their own vote.
pub open spec fn first_live_delegate(s: Seq<Delegation>, who: u64, now: u64) -> Option<u64>
    decreases s.len(),
{
    if s.len() == 0 {
        None
    } else if s[0].delegator == who && delegation_live(s[0], now) {
        Some(s[0].delegate)
    } else {
        first_live_delegate(s.skip(1), who, now)
    }
}

/// Who effectively casts `signer`'s vote at `now`: the signer themselves if
/// they have no live delegation, the end of the chain after one or two hops,
/// and `DelegationChainTooDeep` if a third hop would be needed.
pub open spec fn spec_effective_voter(s: Seq<Delegation>, signer: u64, now: u64) -> Result<
    u64,
    VaultError,
> {
    match first_live_delegate(s, signer, now) {
        None => Ok(signer),
        Some(a) => match first_live_delegate(s, a, now) {
            None => Ok(a),
            Some(b) => match first_live_delegate(s, b, now) {
                None => Ok(b),
                Some(_) => Err(VaultError::DelegationChainTooDeep),
            },
        },
    }
}

/// Whether adding `delegator -> delegate` would close a cycle: the forward
/// walk from `delegate`, within the same depth bound, reaches `delegator`.
pub open spec fn spec_closes_cycle(
    s: Seq<Delegation>,
    delegator: u64,
    delegate: u64,
    now: u64,
) -> bool {
    match first_live_delegate(s, delegate, now) {
        None => false,
        Some(a) => a == delegator || match first_live_delegate(s, a, now) {
            None => false,
            Some(b) => b == delegator || match first_live_delegate(s, b, now) {
                None => false,
                Some(c) => c == delegator,
            },
        },
    }
}

/// The law bounding resolution depth: whenever resolution succeeds, the
/// effective voter is the signer themselves or is reached in at most
/// `MAX_DELEGATION_DEPTH - 1` hops; a resolution that would need more
/// never returns an identity — it fails with `DelegationChainTooDeep`.
pub proof fn lemma_resolution_depth_bounded(s: Seq<Delegation>, signer: u64, now: u64)
    ensures
        match spec_effective_voter(s, signer, now) {
            Ok(v) => {
                ||| v == signer && first_live_delegate(s, signer, now) is None
                ||| first_live_delegate(s, signer, now) == Some(v) && first_live_delegate(
                    s,
                    v,
                    now,
                ) is None
                ||| exists|a: u64|
                    first_live_delegate(s, signer, now) == Some(a) && #[trigger] first_live_delegate(
                        s,
                        a,
                        now,
                    ) == Some(v) && first_live_delegate(s, v, now) is None
            },
            Err(e) => e == VaultError::DelegationChainTooDeep,
        },
{
}

/// Scans the records in creation order for `who`'s first live delegation.
pub fn find_live_delegate(dels: &Vec<Delegation>, who: u64, now: u64) -> (r: Option<u64>)
    ensures
        r == first_live_delegate(dels@, who, now),
{
    let mut i: usize = 0;
    proof {
        assert(dels@.skip(0) =~= dels@);
    }
    while i < dels.len()
        invariant
            0 <= i <= dels@.len(),
            first_live_delegate(dels@, who, now) == first_live_delegate(
                dels@.skip(i as int),
                who,
                now,
            ),
        decreases dels@.len() - i,
    {
        proof {
            assert(dels@.skip(i as int).skip(1) =~= dels@.skip(i as int + 1));
            assert(dels@.skip(i as int)[0] == dels@[i as int]);
        }
        let d = &dels[i];
        if d.delegator == who && d.is_active && (d.expiry_ledger == 0 || d.expiry_ledger > now) {
            return Some(d.delegate);
        }
        i = i + 1;
    }
    None
}

/// Resolves `signer`'s effective voter at `now`; see `spec_effective_voter`
/// for the exact rule. Never writes anything.
pub fn resolve_effective_voter(dels: &Vec<Delegation>, signer: u64, now: u64) -> (r: Result<
    u64,
    VaultError,
>)
    ensures
        r == spec_effective_voter(dels@, signer, now),
{
    match find_live_delegate(dels, signer, now) {
        None => Ok(signer),
        Some(a) => match find_live_delegate(dels, a, now) {
            None => Ok(a),
            Some(b) => match find_live_delegate(dels, b, now) {
                None => Ok(b),
                Some(_) => Err(VaultError::DelegationChainTooDeep),
            },
        },
    }
}

/// Reports whether adding `delegator -> delegate` would close a cycle;
/// see `spec_closes_cycle` for the exact rule. Never writes anything.
pub fn closes_cycle(dels: &Vec<Delegation>, delegator: u64, delegate: u64, now: u64) -> (r: bool)
    ensures
        r == spec_closes_cycle(dels@, delegator, delegate, now),
{
    match find_live_delegate(dels, delegate, now) {
        None => false,
        Some(a) => {
            if a == delegator {
                return true;
            }
            match find_live_delegate(dels, a, now) {
                None => false,
                Some(b) => {
                    if b == delegator {
                        return true;
                    }
                    match find_live_delegate(dels, b, now) {
                        None => false,
                        Some(c) => c == delegator,
                    }
                },
            }
        },
    }
}

} // verus!
