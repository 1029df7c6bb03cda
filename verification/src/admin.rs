//! Vault administration and queries: roles, the signer set, limits,
//! threshold and quorum (each re-validated against the current signer
//! set), recipient lists, delegation management, and the read-only views
//! over proposals, cancellations and quorum progress.

use vstd::prelude::*;

use crate::audit::append_audit;
use crate::delegation::closes_cycle;
use crate::delegation::find_live_delegate;
use crate::delegation::first_live_delegate;
use crate::delegation::resolve_effective_voter;
use crate::delegation::spec_closes_cycle;
use crate::delegation::spec_effective_voter;
use crate::engine::VaultDAO;
use crate::engine::audit_extended;
use crate::engine::lookup_role;
use crate::engine::proposals_step_ok;
use crate::engine::seq_contains;
use crate::engine::spec_role_of;
use crate::engine::store_role;
use crate::errors::VaultError;
use crate::types::AuditAction;
use crate::types::CancellationRecord;
use crate::types::Delegation;
use crate::types::ListMode;
use crate::types::ProposalStatus;
use crate::types::Role;
use crate::types::config_policy_eq;
use crate::types::no_duplicates;
use crate::types::quorum_met;

verus! {

impl VaultDAO {
    /// Assigns a role to an identity; admin only.
    #[verifier::rlimit(100)]
    pub fn set_role(&mut self, admin: u64, target: u64, role: Role, now: u64) -> (r: Result<
        (),
        VaultError,
    >)
        requires
            old(self).wf(),
            old(self).audit_log@.len() < u64::MAX,
        ensures
            final(self).wf(),
            proposals_step_ok(*old(self), *final(self)),
            match r {
                Ok(()) => {
                    &&& spec_role_of(old(self).roles@, admin) is Admin
                    &&& spec_role_of(final(self).roles@, target) == role
                    &&& forall|w: u64|
                        w != target ==> spec_role_of(final(self).roles@, w) == spec_role_of(
                            old(self).roles@,
                            w,
                        )
                    &&& audit_extended(
                        *old(self),
                        *final(self),
                        AuditAction::SetRole,
                        admin,
                        0,
                        now,
                    )
                    &&& final(self).initialized == old(self).initialized
                    &&& final(self).config == old(self).config
                    &&& final(self).proposals == old(self).proposals
                    &&& final(self).delegations == old(self).delegations
                    &&& final(self).daily_spent == old(self).daily_spent
                    &&& final(self).weekly_spent == old(self).weekly_spent
                    &&& final(self).velocity == old(self).velocity
                    &&& final(self).retries == old(self).retries
                    &&& final(self).list_mode == old(self).list_mode
                    &&& final(self).whitelist == old(self).whitelist
                    &&& final(self).blacklist == old(self).blacklist
                    &&& final(self).cancellations == old(self).cancellations
                },
                Err(e) => {
                    &&& *final(self) == *old(self)
                    &&& !(spec_role_of(old(self).roles@, admin) is Admin)
                    &&& e == VaultError::Unauthorized
                },
            },
    {
        let caller_role = lookup_role(&self.roles, admin);
        let is_admin = match caller_role {
            Role::Admin => true,
            _ => false,
        };
        if !is_admin {
            return Err(VaultError::Unauthorized);
        }
        store_role(&mut self.roles, target, role);
        append_audit(&mut self.audit_log, AuditAction::SetRole, admin, 0, now);
        Ok(())
    }

    /// Adds a signer to the live signer set; admin only. The snapshots of
    /// existing proposals are untouched: new signers cannot vote on them.
    #[verifier::rlimit(100)]
    pub fn add_signer(&mut self, admin: u64, new_signer: u64, now: u64) -> (r: Result<
        (),
        VaultError,
    >)
        requires
            old(self).wf(),
            old(self).audit_log@.len() < u64::MAX,
        ensures
            final(self).wf(),
            proposals_step_ok(*old(self), *final(self)),
            match r {
                Ok(()) => {
                    &&& spec_role_of(old(self).roles@, admin) is Admin
                    &&& old(self).initialized
                    &&& !old(self).config.signers@.contains(new_signer)
                    &&& final(self).config.signers@ == old(self).config.signers@.push(new_signer)
                    &&& final(self).config.threshold == old(self).config.threshold
                    &&& final(self).config.quorum == old(self).config.quorum
                    &&& final(self).config.spending_limit == old(self).config.spending_limit
                    &&& final(self).config.daily_limit == old(self).config.daily_limit
                    &&& final(self).config.weekly_limit == old(self).config.weekly_limit
                    &&& config_policy_eq(final(self).config, old(self).config)
                    &&& audit_extended(
                        *old(self),
                        *final(self),
                        AuditAction::AddSigner,
                        admin,
                        0,
                        now,
                    )
                    &&& final(self).initialized == old(self).initialized
                    &&& final(self).roles == old(self).roles
                    &&& final(self).proposals == old(self).proposals
                    &&& final(self).delegations == old(self).delegations
                    &&& final(self).daily_spent == old(self).daily_spent
                    &&& final(self).weekly_spent == old(self).weekly_spent
                    &&& final(self).velocity == old(self).velocity
                    &&& final(self).retries == old(self).retries
                    &&& final(self).list_mode == old(self).list_mode
                    &&& final(self).whitelist == old(self).whitelist
                    &&& final(self).blacklist == old(self).blacklist
                    &&& final(self).cancellations == old(self).cancellations
                },
                Err(e) => {
                    &&& *final(self) == *old(self)
                    &&& if !(spec_role_of(old(self).roles@, admin) is Admin) {
                        e == VaultError::Unauthorized
                    } else if !old(self).initialized {
                        e == VaultError::NotInitialized
                    } else if old(self).config.signers@.contains(new_signer) {
                        e == VaultError::SignerAlreadyExists
                    } else {
                        false
                    }
                },
            },
    {
        let caller_role = lookup_role(&self.roles, admin);
        let is_admin = match caller_role {
            Role::Admin => true,
            _ => false,
        };
        if !is_admin {
            return Err(VaultError::Unauthorized);
        }
        if !self.initialized {
            return Err(VaultError::NotInitialized);
        }
        if seq_contains(&self.config.signers, new_signer) {
            return Err(VaultError::SignerAlreadyExists);
        }
        self.config.signers.push(new_signer);
        append_audit(&mut self.audit_log, AuditAction::AddSigner, admin, 0, now);
        Ok(())
    }

    /// Removes a signer from the live signer set; admin only. The removal
    /// is rejected if it would leave fewer signers than the threshold
    /// needs, or fewer than the quorum demands — both are re-validated
    /// against the signer set that would remain.
    #[verifier::rlimit(100)]
    pub fn remove_signer(&mut self, admin: u64, signer: u64, now: u64) -> (r: Result<
        (),
        VaultError,
    >)
        requires
            old(self).wf(),
            old(self).audit_log@.len() < u64::MAX,
        ensures
            final(self).wf(),
            proposals_step_ok(*old(self), *final(self)),
            match r {
                Ok(()) => {
                    &&& spec_role_of(old(self).roles@, admin) is Admin
                    &&& old(self).initialized
                    &&& old(self).config.signers@.contains(signer)
                    &&& final(self).config.signers@.len() == old(self).config.signers@.len() - 1
                    &&& !final(self).config.signers@.contains(signer)
                    &&& forall|w: u64|
                        w != signer ==> final(self).config.signers@.contains(w) == old(
                            self,
                        ).config.signers@.contains(w)
                    &&& final(self).config.signers@ == old(self).config.signers@.remove(
                        old(self).config.signers@.index_of(signer),
                    )
                    &&& final(self).config.threshold == old(self).config.threshold
                    &&& final(self).config.quorum == old(self).config.quorum
                    &&& final(self).config.spending_limit == old(self).config.spending_limit
                    &&& final(self).config.daily_limit == old(self).config.daily_limit
                    &&& final(self).config.weekly_limit == old(self).config.weekly_limit
                    &&& config_policy_eq(final(self).config, old(self).config)
                    &&& audit_extended(
                        *old(self),
                        *final(self),
                        AuditAction::RemoveSigner,
                        admin,
                        0,
                        now,
                    )
                    &&& final(self).initialized == old(self).initialized
                    &&& final(self).roles == old(self).roles
                    &&& final(self).proposals == old(self).proposals
                    &&& final(self).delegations == old(self).delegations
                    &&& final(self).daily_spent == old(self).daily_spent
                    &&& final(self).weekly_spent == old(self).weekly_spent
                    &&& final(self).velocity == old(self).velocity
                    &&& final(self).retries == old(self).retries
                    &&& final(self).list_mode == old(self).list_mode
                    &&& final(self).whitelist == old(self).whitelist
                    &&& final(self).blacklist == old(self).blacklist
                    &&& final(self).cancellations == old(self).cancellations
                },
                Err(e) => {
                    &&& *final(self) == *old(self)
                    &&& if !(spec_role_of(old(self).roles@, admin) is Admin) {
                        e == VaultError::Unauthorized
                    } else if !old(self).initialized {
                        e == VaultError::NotInitialized
                    } else if !old(self).config.signers@.contains(signer) {
                        e == VaultError::SignerNotFound
                    } else if old(self).config.signers@.len() - 1 < old(self).config.threshold {
                        e == VaultError::CannotRemoveSigner
                    } else if old(self).config.signers@.len() - 1 < old(self).config.quorum {
                        e == VaultError::QuorumTooHigh
                    } else {
                        false
                    }
                },
            },
    {
        let caller_role = lookup_role(&self.roles, admin);
        let is_admin = match caller_role {
            Role::Admin => true,
            _ => false,
        };
        if !is_admin {
            return Err(VaultError::Unauthorized);
        }
        if !self.initialized {
            return Err(VaultError::NotInitialized);
        }

        // Find the signer's position.
        let n = self.config.signers.len();
        let mut i: usize = 0;
        let mut found: bool = false;
        let mut found_at: usize = 0;
        while i < n
            invariant
                0 <= i <= n,
                n == self.config.signers@.len(),
                !found ==> forall|j: int| 0 <= j < i ==> self.config.signers@[j] != signer,
                found ==> found_at < n && self.config.signers@[found_at as int] == signer,
            decreases n - i,
        {
            if self.config.signers[i] == signer {
                found = true;
                found_at = i;
                i = n;
            } else {
                i = i + 1;
            }
        }
        if !found {
            proof {
                if self.config.signers@.contains(signer) {
                    let j = choose|j: int|
                        0 <= j < self.config.signers@.len() && #[trigger] self.config.signers@[j]
                            == signer;
                    assert(self.config.signers@[j] != signer);
                }
            }
            return Err(VaultError::SignerNotFound);
        }
        if n - 1 < self.config.threshold as usize {
            return Err(VaultError::CannotRemoveSigner);
        }
        if n - 1 < self.config.quorum as usize {
            return Err(VaultError::QuorumTooHigh);
        }
        let ghost before = self.config.signers@;
        self.config.signers.remove(found_at);
        proof {
            assert(self.config.signers@ == before.remove(found_at as int));
            assert forall|w: u64| w != signer implies self.config.signers@.contains(w) == before
                .contains(w) by {
                if before.contains(w) {
                    let j = choose|j: int|
                        0 <= j < before.len() && #[trigger] before[j] == w;
                    if j < found_at {
                        assert(self.config.signers@[j] == w);
                    } else {
                        assert(j > found_at);
                        assert(self.config.signers@[j - 1] == w);
                    }
                }
                if self.config.signers@.contains(w) {
                    let j = choose|j: int|
                        0 <= j < self.config.signers@.len() && #[trigger] self.config.signers@[j]
                            == w;
                    if j < found_at {
                        assert(before[j] == w);
                    } else {
                        assert(before[j + 1] == w);
                    }
                }
            }
            if self.config.signers@.contains(signer) {
                let j = choose|j: int|
                    0 <= j < self.config.signers@.len() && #[trigger] self.config.signers@[j]
                        == signer;
                if j < found_at {
                    assert(before[j] == signer);
                    assert(false);
                } else {
                    assert(before[j + 1] == signer);
                    assert(j + 1 > found_at);
                    assert(false);
                }
            }
        }
        append_audit(&mut self.audit_log, AuditAction::RemoveSigner, admin, 0, now);
        Ok(())
    }

    /// Updates the per-proposal and daily spending limits; admin only,
    /// both must be positive. The weekly limit is untouched.
    #[verifier::rlimit(100)]
    pub fn update_limits(&mut self, admin: u64, spending_limit: i128, daily_limit: i128, now: u64)
        -> (r: Result<(), VaultError>)
        requires
            old(self).wf(),
            old(self).audit_log@.len() < u64::MAX,
        ensures
            final(self).wf(),
            proposals_step_ok(*old(self), *final(self)),
            match r {
                Ok(()) => {
                    &&& spec_role_of(old(self).roles@, admin) is Admin
                    &&& spending_limit > 0 && daily_limit > 0
                    &&& old(self).initialized
                    &&& final(self).config.spending_limit == spending_limit
                    &&& final(self).config.daily_limit == daily_limit
                    &&& final(self).config.weekly_limit == old(self).config.weekly_limit
                    &&& final(self).config.signers == old(self).config.signers
                    &&& final(self).config.threshold == old(self).config.threshold
                    &&& final(self).config.quorum == old(self).config.quorum
                    &&& config_policy_eq(final(self).config, old(self).config)
                    &&& audit_extended(
                        *old(self),
                        *final(self),
                        AuditAction::UpdateLimits,
                        admin,
                        0,
                        now,
                    )
                    &&& final(self).initialized == old(self).initialized
                    &&& final(self).roles == old(self).roles
                    &&& final(self).proposals == old(self).proposals
                    &&& final(self).delegations == old(self).delegations
                    &&& final(self).daily_spent == old(self).daily_spent
                    &&& final(self).weekly_spent == old(self).weekly_spent
                    &&& final(self).velocity == old(self).velocity
                    &&& final(self).retries == old(self).retries
                    &&& final(self).list_mode == old(self).list_mode
                    &&& final(self).whitelist == old(self).whitelist
                    &&& final(self).blacklist == old(self).blacklist
                    &&& final(self).cancellations == old(self).cancellations
                },
                Err(e) => {
                    &&& *final(self) == *old(self)
                    &&& if !(spec_role_of(old(self).roles@, admin) is Admin) {
                        e == VaultError::Unauthorized
                    } else if !(spending_limit > 0 && daily_limit > 0) {
                        e == VaultError::InvalidAmount
                    } else if !old(self).initialized {
                        e == VaultError::NotInitialized
                    } else {
                        false
                    }
                },
            },
    {
        let caller_role = lookup_role(&self.roles, admin);
        let is_admin = match caller_role {
            Role::Admin => true,
            _ => false,
        };
        if !is_admin {
            return Err(VaultError::Unauthorized);
        }
        if spending_limit <= 0 || daily_limit <= 0 {
            return Err(VaultError::InvalidAmount);
        }
        if !self.initialized {
            return Err(VaultError::NotInitialized);
        }
        self.config.spending_limit = spending_limit;
        self.config.daily_limit = daily_limit;
        append_audit(&mut self.audit_log, AuditAction::UpdateLimits, admin, 0, now);
        Ok(())
    }

    /// Updates the approval threshold; admin only, re-validated against
    /// the current signer count.
    #[verifier::rlimit(100)]
    pub fn update_threshold(&mut self, admin: u64, threshold: u32, now: u64) -> (r: Result<
        (),
        VaultError,
    >)
        requires
            old(self).wf(),
            old(self).audit_log@.len() < u64::MAX,
        ensures
            final(self).wf(),
            proposals_step_ok(*old(self), *final(self)),
            match r {
                Ok(()) => {
                    &&& spec_role_of(old(self).roles@, admin) is Admin
                    &&& old(self).initialized
                    &&& 1 <= threshold <= old(self).config.signers@.len()
                    &&& final(self).config.threshold == threshold
                    &&& final(self).config.signers == old(self).config.signers
                    &&& final(self).config.quorum == old(self).config.quorum
                    &&& final(self).config.spending_limit == old(self).config.spending_limit
                    &&& final(self).config.daily_limit == old(self).config.daily_limit
                    &&& final(self).config.weekly_limit == old(self).config.weekly_limit
                    &&& config_policy_eq(final(self).config, old(self).config)
                    &&& audit_extended(
                        *old(self),
                        *final(self),
                        AuditAction::UpdateThreshold,
                        admin,
                        0,
                        now,
                    )
                    &&& final(self).initialized == old(self).initialized
                    &&& final(self).roles == old(self).roles
                    &&& final(self).proposals == old(self).proposals
                    &&& final(self).delegations == old(self).delegations
                    &&& final(self).daily_spent == old(self).daily_spent
                    &&& final(self).weekly_spent == old(self).weekly_spent
                    &&& final(self).velocity == old(self).velocity
                    &&& final(self).retries == old(self).retries
                    &&& final(self).list_mode == old(self).list_mode
                    &&& final(self).whitelist == old(self).whitelist
                    &&& final(self).blacklist == old(self).blacklist
                    &&& final(self).cancellations == old(self).cancellations
                },
                Err(e) => {
                    &&& *final(self) == *old(self)
                    &&& if !(spec_role_of(old(self).roles@, admin) is Admin) {
                        e == VaultError::Unauthorized
                    } else if !old(self).initialized {
                        e == VaultError::NotInitialized
                    } else if threshold < 1 {
                        e == VaultError::ThresholdTooLow
                    } else if threshold > old(self).config.signers@.len() {
                        e == VaultError::ThresholdTooHigh
                    } else {
                        false
                    }
                },
            },
    {
        let caller_role = lookup_role(&self.roles, admin);
        let is_admin = match caller_role {
            Role::Admin => true,
            _ => false,
        };
        if !is_admin {
            return Err(VaultError::Unauthorized);
        }
        if !self.initialized {
            return Err(VaultError::NotInitialized);
        }
        if threshold < 1 {
            return Err(VaultError::ThresholdTooLow);
        }
        if threshold as usize > self.config.signers.len() {
            return Err(VaultError::ThresholdTooHigh);
        }
        self.config.threshold = threshold;
        append_audit(&mut self.audit_log, AuditAction::UpdateThreshold, admin, 0, now);
        Ok(())
    }

    /// Updates the quorum; admin only, re-validated against the current
    /// signer count. 0 disables the quorum.
    #[verifier::rlimit(100)]
    pub fn update_quorum(&mut self, admin: u64, quorum: u32) -> (r: Result<(), VaultError>)
        requires
            old(self).wf(),
        ensures
            final(self).wf(),
            proposals_step_ok(*old(self), *final(self)),
            match r {
                Ok(()) => {
                    &&& spec_role_of(old(self).roles@, admin) is Admin
                    &&& old(self).initialized
                    &&& quorum <= old(self).config.signers@.len()
                    &&& final(self).config.quorum == quorum
                    &&& final(self).config.signers == old(self).config.signers
                    &&& final(self).config.threshold == old(self).config.threshold
                    &&& final(self).config.spending_limit == old(self).config.spending_limit
                    &&& final(self).config.daily_limit == old(self).config.daily_limit
                    &&& final(self).config.weekly_limit == old(self).config.weekly_limit
                    &&& config_policy_eq(final(self).config, old(self).config)
                    &&& final(self).initialized == old(self).initialized
                    &&& final(self).roles == old(self).roles
                    &&& final(self).proposals == old(self).proposals
                    &&& final(self).delegations == old(self).delegations
                    &&& final(self).daily_spent == old(self).daily_spent
                    &&& final(self).weekly_spent == old(self).weekly_spent
                    &&& final(self).velocity == old(self).velocity
                    &&& final(self).retries == old(self).retries
                    &&& final(self).audit_log == old(self).audit_log
                    &&& final(self).list_mode == old(self).list_mode
                    &&& final(self).whitelist == old(self).whitelist
                    &&& final(self).blacklist == old(self).blacklist
                    &&& final(self).cancellations == old(self).cancellations
                },
                Err(e) => {
                    &&& *final(self) == *old(self)
                    &&& if !(spec_role_of(old(self).roles@, admin) is Admin) {
                        e == VaultError::Unauthorized
                    } else if !old(self).initialized {
                        e == VaultError::NotInitialized
                    } else if quorum > old(self).config.signers@.len() {
                        e == VaultError::QuorumTooHigh
                    } else {
                        false
                    }
                },
            },
    {
        let caller_role = lookup_role(&self.roles, admin);
        let is_admin = match caller_role {
            Role::Admin => true,
            _ => false,
        };
        if !is_admin {
            return Err(VaultError::Unauthorized);
        }
        if !self.initialized {
            return Err(VaultError::NotInitialized);
        }
        if quorum as usize > self.config.signers.len() {
            return Err(VaultError::QuorumTooHigh);
        }
        self.config.quorum = quorum;
        Ok(())
    }
}

/// The first cancellation record stored for this proposal, scanning in
/// cancellation order.
pub open spec fn spec_cancellation_record(s: Seq<CancellationRecord>, proposal_id: u64) -> Option<
    CancellationRecord,
>
    decreases s.len(),
{
    if s.len() == 0 {
        None
    } else if s[0].proposal_id == proposal_id {
        Some(s[0])
    } else {
        spec_cancellation_record(s.skip(1), proposal_id)
    }
}

/// Removes the single occurrence of an identity from a duplicate-free list.
fn remove_id(v: &mut Vec<u64>, x: u64)
    requires
        no_duplicates(old(v)@),
        old(v)@.contains(x),
    ensures
        no_duplicates(final(v)@),
        final(v)@.len() == old(v)@.len() - 1,
        !final(v)@.contains(x),
        forall|w: u64| w != x ==> final(v)@.contains(w) == old(v)@.contains(w),
{
    let ghost before = v@;
    let n = v.len();
    let mut i: usize = 0;
    while i < n
        invariant
            0 <= i <= n,
            n == v@.len(),
            v@ == before,
            before == old(v)@,
            no_duplicates(before),
            before.contains(x),
            forall|j: int| 0 <= j < i ==> before[j] != x,
        decreases n - i,
    {
        if v[i] == x {
            v.remove(i);
            proof {
                assert(v@ == before.remove(i as int));
                assert forall|w: u64| w != x implies v@.contains(w) == before.contains(w) by {
                    if before.contains(w) {
                        let j = choose|j: int| 0 <= j < before.len() && #[trigger] before[j] == w;
                        if j < i {
                            assert(v@[j] == w);
                        } else {
                            assert(j > i);
                            assert(v@[j - 1] == w);
                        }
                    }
                    if v@.contains(w) {
                        let j = choose|j: int| 0 <= j < v@.len() && #[trigger] v@[j] == w;
                        if j < i {
                            assert(before[j] == w);
                        } else {
                            assert(before[j + 1] == w);
                        }
                    }
                }
                if v@.contains(x) {
                    let j = choose|j: int| 0 <= j < v@.len() && #[trigger] v@[j] == x;
                    if j < i {
                        assert(before[j] == x);
                        assert(false);
                    } else {
                        assert(before[j + 1] == x);
                        assert(false);
                    }
                }
            }
            return ;
        }
        i = i + 1;
    }
    proof {
        let j = choose|j: int| 0 <= j < before.len() && #[trigger] before[j] == x;
        assert(before[j] != x);
    }
}

impl VaultDAO {
    /// Grants `delegate` the delegator's voting power until `expiry_ledger`
    /// (0 means permanent). Both parties must be current signers, the
    /// delegator must not already hold a live delegation, and — checked
    /// before anything is written — the new edge must not close a
    /// delegation cycle.
    #[verifier::rlimit(100)]
    pub fn delegate_voting_power(
        &mut self,
        delegator: u64,
        delegate: u64,
        expiry_ledger: u64,
        now: u64,
    ) -> (r: Result<u64, VaultError>)
        requires
            old(self).wf(),
            old(self).delegations@.len() < u64::MAX,
        ensures
            final(self).wf(),
            proposals_step_ok(*old(self), *final(self)),
            match r {
                Ok(id) => {
                    &&& old(self).initialized
                    &&& delegator != delegate
                    &&& old(self).config.signers@.contains(delegator)
                    &&& old(self).config.signers@.contains(delegate)
                    &&& first_live_delegate(old(self).delegations@, delegator, now) is None
                    &&& !spec_closes_cycle(old(self).delegations@, delegator, delegate, now)
                    &&& id == old(self).delegations@.len() + 1
                    &&& final(self).delegations@ == old(self).delegations@.push(
                        Delegation {
                            id,
                            delegator,
                            delegate,
                            expiry_ledger,
                            is_active: true,
                            created_at: now,
                        },
                    )
                    &&& final(self).initialized == old(self).initialized
                    &&& final(self).config == old(self).config
                    &&& final(self).roles == old(self).roles
                    &&& final(self).proposals == old(self).proposals
                    &&& final(self).daily_spent == old(self).daily_spent
                    &&& final(self).weekly_spent == old(self).weekly_spent
                    &&& final(self).velocity == old(self).velocity
                    &&& final(self).retries == old(self).retries
                    &&& final(self).audit_log == old(self).audit_log
                    &&& final(self).list_mode == old(self).list_mode
                    &&& final(self).whitelist == old(self).whitelist
                    &&& final(self).blacklist == old(self).blacklist
                    &&& final(self).cancellations == old(self).cancellations
                },
                Err(e) => {
                    &&& *final(self) == *old(self)
                    &&& if !old(self).initialized {
                        e == VaultError::NotInitialized
                    } else if delegator == delegate {
                        e == VaultError::CannotDelegateToSelf
                    } else if !old(self).config.signers@.contains(delegator) {
                        e == VaultError::DelegatorNotSigner
                    } else if !old(self).config.signers@.contains(delegate) {
                        e == VaultError::DelegateNotSigner
                    } else if !(first_live_delegate(old(self).delegations@, delegator, now)
                        is None) {
                        e == VaultError::DelegationAlreadyExists
                    } else if spec_closes_cycle(old(self).delegations@, delegator, delegate, now) {
                        e == VaultError::CircularDelegation
                    } else {
                        false
                    }
                },
            },
    {
        if !self.initialized {
            return Err(VaultError::NotInitialized);
        }
        if delegator == delegate {
            return Err(VaultError::CannotDelegateToSelf);
        }
        if !seq_contains(&self.config.signers, delegator) {
            return Err(VaultError::DelegatorNotSigner);
        }
        if !seq_contains(&self.config.signers, delegate) {
            return Err(VaultError::DelegateNotSigner);
        }
        match find_live_delegate(&self.delegations, delegator, now) {
            Some(_) => {
                return Err(VaultError::DelegationAlreadyExists);
            },
            None => {},
        }
        if closes_cycle(&self.delegations, delegator, delegate, now) {
            return Err(VaultError::CircularDelegation);
        }
        let id = self.delegations.len() as u64 + 1;
        self.delegations.push(
            Delegation { id, delegator, delegate, expiry_ledger, is_active: true, created_at: now },
        );
        Ok(id)
    }

    /// Deactivates a delegation. Only the original delegator may revoke;
    /// the record itself stays, as history.
    pub fn revoke_delegation(&mut self, delegator: u64, delegation_id: u64) -> (r: Result<
        (),
        VaultError,
    >)
        requires
            old(self).wf(),
        ensures
            final(self).wf(),
            proposals_step_ok(*old(self), *final(self)),
            match r {
                Ok(()) => {
                    &&& 1 <= delegation_id <= old(self).delegations@.len()
                    &&& {
                        let d0 = old(self).delegations@[delegation_id - 1];
                        &&& d0.delegator == delegator
                        &&& final(self).delegations@ == old(self).delegations@.update(
                            delegation_id - 1,
                            Delegation {
                                id: d0.id,
                                delegator: d0.delegator,
                                delegate: d0.delegate,
                                expiry_ledger: d0.expiry_ledger,
                                is_active: false,
                                created_at: d0.created_at,
                            },
                        )
                    }
                    &&& final(self).initialized == old(self).initialized
                    &&& final(self).config == old(self).config
                    &&& final(self).roles == old(self).roles
                    &&& final(self).proposals == old(self).proposals
                    &&& final(self).daily_spent == old(self).daily_spent
                    &&& final(self).weekly_spent == old(self).weekly_spent
                    &&& final(self).velocity == old(self).velocity
                    &&& final(self).retries == old(self).retries
                    &&& final(self).audit_log == old(self).audit_log
                    &&& final(self).list_mode == old(self).list_mode
                    &&& final(self).whitelist == old(self).whitelist
                    &&& final(self).blacklist == old(self).blacklist
                    &&& final(self).cancellations == old(self).cancellations
                },
                Err(e) => {
                    &&& *final(self) == *old(self)
                    &&& if !(1 <= delegation_id <= old(self).delegations@.len()) {
                        e == VaultError::DelegationNotFound
                    } else if old(self).delegations@[delegation_id - 1].delegator != delegator {
                        e == VaultError::Unauthorized
                    } else {
                        false
                    }
                },
            },
    {
        if delegation_id == 0 || delegation_id > self.delegations.len() as u64 {
            return Err(VaultError::DelegationNotFound);
        }
        let idx = (delegation_id - 1) as usize;
        if self.delegations[idx].delegator != delegator {
            return Err(VaultError::Unauthorized);
        }
        let d = self.delegations[idx];
        self.delegations[idx] = Delegation {
            id: d.id,
            delegator: d.delegator,
            delegate: d.delegate,
            expiry_ledger: d.expiry_ledger,
            is_active: false,
            created_at: d.created_at,
        };
        Ok(())
    }

    /// The delegation record with this id.
    pub fn get_delegation(&self, delegation_id: u64) -> (r: Result<Delegation, VaultError>)
        ensures
            match r {
                Ok(d) => 1 <= delegation_id <= self.delegations@.len() && d
                    == self.delegations@[delegation_id - 1],
                Err(e) => {
                    &&& e == VaultError::DelegationNotFound
                    &&& !(1 <= delegation_id <= self.delegations@.len())
                },
            },
    {
        if delegation_id == 0 || delegation_id > self.delegations.len() as u64 {
            return Err(VaultError::DelegationNotFound);
        }
        Ok(self.delegations[(delegation_id - 1) as usize])
    }

    /// Who would effectively cast this signer's vote right now; fails with
    /// `DelegationChainTooDeep` when resolution needs more hops than the
    /// bound allows. Reads only.
    pub fn get_effective_voter(&self, signer: u64, now: u64) -> (r: Result<u64, VaultError>)
        ensures
            r == spec_effective_voter(self.delegations@, signer, now),
    {
        resolve_effective_voter(&self.delegations, signer, now)
    }

    /// Sets the recipient list mode; admin only.
    pub fn set_list_mode(&mut self, admin: u64, mode: ListMode) -> (r: Result<(), VaultError>)
        requires
            old(self).wf(),
        ensures
            final(self).wf(),
            proposals_step_ok(*old(self), *final(self)),
            match r {
                Ok(()) => {
                    &&& spec_role_of(old(self).roles@, admin) is Admin
                    &&& final(self).list_mode == mode
                    &&& final(self).whitelist == old(self).whitelist
                    &&& final(self).blacklist == old(self).blacklist
                    &&& final(self).initialized == old(self).initialized
                    &&& final(self).config == old(self).config
                    &&& final(self).roles == old(self).roles
                    &&& final(self).proposals == old(self).proposals
                    &&& final(self).delegations == old(self).delegations
                    &&& final(self).daily_spent == old(self).daily_spent
                    &&& final(self).weekly_spent == old(self).weekly_spent
                    &&& final(self).velocity == old(self).velocity
                    &&& final(self).retries == old(self).retries
                    &&& final(self).audit_log == old(self).audit_log
                    &&& final(self).cancellations == old(self).cancellations
                },
                Err(e) => {
                    &&& *final(self) == *old(self)
                    &&& !(spec_role_of(old(self).roles@, admin) is Admin)
                    &&& e == VaultError::Unauthorized
                },
            },
    {
        let caller_role = lookup_role(&self.roles, admin);
        let is_admin = match caller_role {
            Role::Admin => true,
            _ => false,
        };
        if !is_admin {
            return Err(VaultError::Unauthorized);
        }
        self.list_mode = mode;
        Ok(())
    }

    /// The current recipient list mode.
    pub fn get_list_mode(&self) -> (r: ListMode)
        ensures
            r == self.list_mode,
    {
        self.list_mode
    }

    /// Puts an address on the whitelist; admin only.
    pub fn add_to_whitelist(&mut self, admin: u64, addr: u64) -> (r: Result<(), VaultError>)
        requires
            old(self).wf(),
        ensures
            final(self).wf(),
            proposals_step_ok(*old(self), *final(self)),
            match r {
                Ok(()) => {
                    &&& spec_role_of(old(self).roles@, admin) is Admin
                    &&& !old(self).whitelist@.contains(addr)
                    &&& final(self).whitelist@ == old(self).whitelist@.push(addr)
                    &&& final(self).blacklist == old(self).blacklist
                    &&& final(self).list_mode == old(self).list_mode
                    &&& final(self).initialized == old(self).initialized
                    &&& final(self).config == old(self).config
                    &&& final(self).roles == old(self).roles
                    &&& final(self).proposals == old(self).proposals
                    &&& final(self).delegations == old(self).delegations
                    &&& final(self).daily_spent == old(self).daily_spent
                    &&& final(self).weekly_spent == old(self).weekly_spent
                    &&& final(self).velocity == old(self).velocity
                    &&& final(self).retries == old(self).retries
                    &&& final(self).audit_log == old(self).audit_log
                    &&& final(self).cancellations == old(self).cancellations
                },
                Err(e) => {
                    &&& *final(self) == *old(self)
                    &&& if !(spec_role_of(old(self).roles@, admin) is Admin) {
                        e == VaultError::Unauthorized
                    } else if old(self).whitelist@.contains(addr) {
                        e == VaultError::AddressAlreadyOnList
                    } else {
                        false
                    }
                },
            },
    {
        let caller_role = lookup_role(&self.roles, admin);
        let is_admin = match caller_role {
            Role::Admin => true,
            _ => false,
        };
        if !is_admin {
            return Err(VaultError::Unauthorized);
        }
        if seq_contains(&self.whitelist, addr) {
            return Err(VaultError::AddressAlreadyOnList);
        }
        self.whitelist.push(addr);
        Ok(())
    }

    /// Takes an address off the whitelist; admin only.
    pub fn remove_from_whitelist(&mut self, admin: u64, addr: u64) -> (r: Result<(), VaultError>)
        requires
            old(self).wf(),
        ensures
            final(self).wf(),
            proposals_step_ok(*old(self), *final(self)),
            match r {
                Ok(()) => {
                    &&& spec_role_of(old(self).roles@, admin) is Admin
                    &&& old(self).whitelist@.contains(addr)
                    &&& !final(self).whitelist@.contains(addr)
                    &&& final(self).whitelist@.len() == old(self).whitelist@.len() - 1
                    &&& forall|w: u64|
                        w != addr ==> final(self).whitelist@.contains(w) == old(
                            self,
                        ).whitelist@.contains(w)
                    &&& final(self).blacklist == old(self).blacklist
                    &&& final(self).list_mode == old(self).list_mode
                    &&& final(self).initialized == old(self).initialized
                    &&& final(self).config == old(self).config
                    &&& final(self).roles == old(self).roles
                    &&& final(self).proposals == old(self).proposals
                    &&& final(self).delegations == old(self).delegations
                    &&& final(self).daily_spent == old(self).daily_spent
                    &&& final(self).weekly_spent == old(self).weekly_spent
                    &&& final(self).velocity == old(self).velocity
                    &&& final(self).retries == old(self).retries
                    &&& final(self).audit_log == old(self).audit_log
                    &&& final(self).cancellations == old(self).cancellations
                },
                Err(e) => {
                    &&& *final(self) == *old(self)
                    &&& if !(spec_role_of(old(self).roles@, admin) is Admin) {
                        e == VaultError::Unauthorized
                    } else if !old(self).whitelist@.contains(addr) {
                        e == VaultError::AddressNotOnList
                    } else {
                        false
                    }
                },
            },
    {
        let caller_role = lookup_role(&self.roles, admin);
        let is_admin = match caller_role {
            Role::Admin => true,
            _ => false,
        };
        if !is_admin {
            return Err(VaultError::Unauthorized);
        }
        if !seq_contains(&self.whitelist, addr) {
            return Err(VaultError::AddressNotOnList);
        }
        remove_id(&mut self.whitelist, addr);
        Ok(())
    }

    /// Puts an address on the blacklist; admin only.
    pub fn add_to_blacklist(&mut self, admin: u64, addr: u64) -> (r: Result<(), VaultError>)
        requires
            old(self).wf(),
        ensures
            final(self).wf(),
            proposals_step_ok(*old(self), *final(self)),
            match r {
                Ok(()) => {
                    &&& spec_role_of(old(self).roles@, admin) is Admin
                    &&& !old(self).blacklist@.contains(addr)
                    &&& final(self).blacklist@ == old(self).blacklist@.push(addr)
                    &&& final(self).whitelist == old(self).whitelist
                    &&& final(self).list_mode == old(self).list_mode
                    &&& final(self).initialized == old(self).initialized
                    &&& final(self).config == old(self).config
                    &&& final(self).roles == old(self).roles
                    &&& final(self).proposals == old(self).proposals
                    &&& final(self).delegations == old(self).delegations
                    &&& final(self).daily_spent == old(self).daily_spent
                    &&& final(self).weekly_spent == old(self).weekly_spent
                    &&& final(self).velocity == old(self).velocity
                    &&& final(self).retries == old(self).retries
                    &&& final(self).audit_log == old(self).audit_log
                    &&& final(self).cancellations == old(self).cancellations
                },
                Err(e) => {
                    &&& *final(self) == *old(self)
                    &&& if !(spec_role_of(old(self).roles@, admin) is Admin) {
                        e == VaultError::Unauthorized
                    } else if old(self).blacklist@.contains(addr) {
                        e == VaultError::AddressAlreadyOnList
                    } else {
                        false
                    }
                },
            },
    {
        let caller_role = lookup_role(&self.roles, admin);
        let is_admin = match caller_role {
            Role::Admin => true,
            _ => false,
        };
        if !is_admin {
            return Err(VaultError::Unauthorized);
        }
        if seq_contains(&self.blacklist, addr) {
            return Err(VaultError::AddressAlreadyOnList);
        }
        self.blacklist.push(addr);
        Ok(())
    }

    /// Takes an address off the blacklist; admin only.
    pub fn remove_from_blacklist(&mut self, admin: u64, addr: u64) -> (r: Result<(), VaultError>)
        requires
            old(self).wf(),
        ensures
            final(self).wf(),
            proposals_step_ok(*old(self), *final(self)),
            match r {
                Ok(()) => {
                    &&& spec_role_of(old(self).roles@, admin) is Admin
                    &&& old(self).blacklist@.contains(addr)
                    &&& !final(self).blacklist@.contains(addr)
                    &&& final(self).blacklist@.len() == old(self).blacklist@.len() - 1
                    &&& forall|w: u64|
                        w != addr ==> final(self).blacklist@.contains(w) == old(
                            self,
                        ).blacklist@.contains(w)
                    &&& final(self).whitelist == old(self).whitelist
                    &&& final(self).list_mode == old(self).list_mode
                    &&& final(self).initialized == old(self).initialized
                    &&& final(self).config == old(self).config
                    &&& final(self).roles == old(self).roles
                    &&& final(self).proposals == old(self).proposals
                    &&& final(self).delegations == old(self).delegations
                    &&& final(self).daily_spent == old(self).daily_spent
                    &&& final(self).weekly_spent == old(self).weekly_spent
                    &&& final(self).velocity == old(self).velocity
                    &&& final(self).retries == old(self).retries
                    &&& final(self).audit_log == old(self).audit_log
                    &&& final(self).cancellations == old(self).cancellations
                },
                Err(e) => {
                    &&& *final(self) == *old(self)
                    &&& if !(spec_role_of(old(self).roles@, admin) is Admin) {
                        e == VaultError::Unauthorized
                    } else if !old(self).blacklist@.contains(addr) {
                        e == VaultError::AddressNotOnList
                    } else {
                        false
                    }
                },
            },
    {
        let caller_role = lookup_role(&self.roles, admin);
        let is_admin = match caller_role {
            Role::Admin => true,
            _ => false,
        };
        if !is_admin {
            return Err(VaultError::Unauthorized);
        }
        if !seq_contains(&self.blacklist, addr) {
            return Err(VaultError::AddressNotOnList);
        }
        remove_id(&mut self.blacklist, addr);
        Ok(())
    }

    /// Whether an address is on the whitelist.
    pub fn is_whitelisted(&self, addr: u64) -> (r: bool)
        ensures
            r == self.whitelist@.contains(addr),
    {
        seq_contains(&self.whitelist, addr)
    }

    /// Whether an address is on the blacklist.
    pub fn is_blacklisted(&self, addr: u64) -> (r: bool)
        ensures
            r == self.blacklist@.contains(addr),
    {
        seq_contains(&self.blacklist, addr)
    }

    /// Quorum progress of a proposal: the votes cast so far (approvals plus
    /// abstentions), the configured quorum, and whether it is satisfied.
    pub fn get_quorum_status(&self, proposal_id: u64) -> (r: Result<(u64, u32, bool), VaultError>)
        requires
            self.wf(),
        ensures
            match r {
                Ok((votes, required, reached)) => {
                    &&& self.initialized
                    &&& self.spec_proposal(proposal_id) matches Some(p) && {
                        &&& votes == (p.approvals@.len() + p.abstentions@.len()) as u64
                        &&& required == self.config.quorum
                        &&& reached == quorum_met(self.config, p)
                    }
                },
                Err(e) => if !self.initialized {
                    e == VaultError::NotInitialized
                } else {
                    &&& self.spec_proposal(proposal_id) is None
                    &&& e == VaultError::ProposalNotFound
                },
            },
    {
        if !self.initialized {
            return Err(VaultError::NotInitialized);
        }
        if proposal_id == 0 || proposal_id > self.proposals.len() as u64 {
            return Err(VaultError::ProposalNotFound);
        }
        match &self.proposals[(proposal_id - 1) as usize] {
            None => Err(VaultError::ProposalNotFound),
            Some(p) => {
                let total: u128 = p.approvals.len() as u128 + p.abstentions.len() as u128;
                let votes = #[verifier::truncate] (total as u64);
                let required = self.config.quorum;
                let reached = required == 0 || total >= required as u128;
                Ok((votes, required, reached))
            },
        }
    }

    /// A proposal that an `execute_proposal` call could move right now,
    /// as far as its own record says: approved, unexpired, and past any
    /// time lock.
    pub open spec fn spec_executable(self, proposal_id: u64, now: u64) -> bool {
        self.spec_proposal(proposal_id) matches Some(p) && {
            &&& p.status is Approved
            &&& now <= p.expires_at
            &&& (p.unlock_ledger == 0 || now >= p.unlock_ledger)
        }
    }

    /// The ids of every proposal that is currently executable, each listed
    /// once, in increasing id order; see `spec_executable`.
    pub fn get_executable_proposals(&self, now: u64) -> (r: Vec<u64>)
        requires
            self.wf(),
        ensures
            forall|id: u64| r@.contains(id) == self.spec_executable(id, now),
            forall|a: int, b: int| 0 <= a < b < r@.len() ==> r@[a] < r@[b],
    {
        let mut r: Vec<u64> = Vec::new();
        let n = self.proposals.len();
        let mut i: usize = 0;
        while i < n
            invariant
                0 <= i <= n,
                n == self.proposals@.len(),
                self.wf(),
                forall|q: u64| 1 <= q <= i ==> r@.contains(q) == self.spec_executable(q, now),
                forall|j: int| 0 <= j < r@.len() ==> 1 <= #[trigger] r@[j] <= i,
                forall|a: int, b: int| 0 <= a < b < r@.len() ==> r@[a] < r@[b],
            decreases n - i,
        {
            let ghost r_before = r@;
            let id = i as u64 + 1;
            match &self.proposals[i] {
                None => {},
                Some(p) => {
                    let approved = match p.status {
                        ProposalStatus::Approved => true,
                        _ => false,
                    };
                    if approved && now <= p.expires_at && (p.unlock_ledger == 0 || now
                        >= p.unlock_ledger) {
                        r.push(id);
                    }
                },
            }
            proof {
                assert forall|q: u64| 1 <= q <= i + 1 implies r@.contains(q)
                    == self.spec_executable(q, now) by {
                    if q == id {
                        if self.spec_executable(q, now) {
                            assert(r@.last() == id);
                            assert(r@.contains(id));
                        } else {
                            if r@.contains(q) {
                                let j = choose|j: int|
                                    0 <= j < r@.len() && #[trigger] r@[j] == q;
                                assert(r_before.contains(q) || j == r@.len() - 1);
                            }
                        }
                    } else {
                        assert(r@.contains(q) == r_before.contains(q)) by {
                            if r_before.contains(q) {
                                let j = choose|j: int|
                                    0 <= j < r_before.len() && #[trigger] r_before[j] == q;
                                assert(r@[j] == q);
                            }
                            if r@.contains(q) {
                                let j = choose|j: int|
                                    0 <= j < r@.len() && #[trigger] r@[j] == q;
                                if j < r_before.len() {
                                    assert(r_before[j] == q);
                                }
                            }
                        }
                    }
                }
            }
            i = i + 1;
        }
        proof {
            assert forall|id: u64| r@.contains(id) == self.spec_executable(id, now) by {
                if id >= 1 && id <= n {
                } else {
                    if r@.contains(id) {
                        let j = choose|j: int| 0 <= j < r@.len() && #[trigger] r@[j] == id;
                    }
                    assert(!self.spec_executable(id, now));
                }
            }
        }
        r
    }

    /// The cancellation record of a cancelled proposal: who cancelled,
    /// why, when, and how much was refunded.
    pub fn get_cancellation_record(&self, proposal_id: u64) -> (r: Result<
        CancellationRecord,
        VaultError,
    >)
        ensures
            match r {
                Ok(c) => spec_cancellation_record(self.cancellations@, proposal_id) == Some(c),
                Err(e) => {
                    &&& e == VaultError::ProposalNotFound
                    &&& spec_cancellation_record(self.cancellations@, proposal_id) is None
                },
            },
    {
        let mut i: usize = 0;
        proof {
            assert(self.cancellations@.skip(0) =~= self.cancellations@);
        }
        while i < self.cancellations.len()
            invariant
                0 <= i <= self.cancellations@.len(),
                spec_cancellation_record(self.cancellations@, proposal_id)
                    == spec_cancellation_record(self.cancellations@.skip(i as int), proposal_id),
            decreases self.cancellations@.len() - i,
        {
            proof {
                assert(self.cancellations@.skip(i as int).skip(1) =~= self.cancellations@.skip(
                    i as int + 1,
                ));
                assert(self.cancellations@.skip(i as int)[0] == self.cancellations@[i as int]);
            }
            if self.cancellations[i].proposal_id == proposal_id {
                return Ok(self.cancellations[i]);
            }
            i = i + 1;
        }
        Err(VaultError::ProposalNotFound)
    }

    /// The ids of every cancelled proposal, in cancellation order.
    pub fn get_cancellation_history(&self) -> (r: Vec<u64>)
        ensures
            r@.len() == self.cancellations@.len(),
            forall|j: int| 0 <= j < r@.len() ==> r@[j] == self.cancellations@[j].proposal_id,
    {
        let mut r: Vec<u64> = Vec::new();
        let mut i: usize = 0;
        while i < self.cancellations.len()
            invariant
                0 <= i <= self.cancellations@.len(),
                r@.len() == i,
                forall|j: int| 0 <= j < i ==> r@[j] == self.cancellations@[j].proposal_id,
            decreases self.cancellations@.len() - i,
        {
            r.push(self.cancellations[i].proposal_id);
            i = i + 1;
        }
        r
    }
}

} // verus!
