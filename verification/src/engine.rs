//! The governance engine: one value of plain state, mutated by the entry
//! points that the host exposes to callers.
//!
//! Every entry point receives the current ledger time as an argument and
//! either fails with a specific error leaving the state untouched, or
//! performs exactly the documented mutation. The two deliberate exceptions
//! are the expiry and deadline transitions (a vote or execution attempt on a
//! lapsed proposal records the lapse and then fails) and execution under the
//! retry policy, which reports `RetryScheduled` instead of failing so the
//! bookkeeping survives; both are part of the contracts below.
//!
//! Authentication is the host's job: the engine trusts that the `actor`
//! argument of a call was authorized by that identity.

use vstd::prelude::*;

use crate::audit::append_audit;
use crate::audit::chain_wf;
use crate::audit::spec_next_entry;
use crate::audit::verify_entries;
use crate::audit::lemma_untouched_chain_verifies;
use crate::errors::VaultError;
use crate::spending::bucket_get;
use crate::spending::bucket_keys_unique;
use crate::spending::bucket_lookup;
use crate::spending::bucket_nonneg;
use crate::spending::vel_keys_unique;
use crate::types::AuditAction;
use crate::types::AuditEntry;
use crate::types::CancellationRecord;
use crate::types::Delegation;
use crate::types::InitConfig;
use crate::types::ListMode;
use crate::types::Proposal;
use crate::types::RetryState;
use crate::types::Role;
use crate::types::config_valid;
use crate::types::is_terminal;
use crate::types::lemma_terminal_status_is_final;
use crate::types::no_duplicates;
use crate::types::proposal_wf;
use crate::types::status_step_allowed;

verus! {

/// What a successful `execute_proposal` call actually did.
#[derive(Clone, Copy, Debug, PartialEq, Eq, Structural)]
pub enum ExecutionOutcome {
    /// The transfer was authorized and the proposal is `Executed`; the host
    /// now moves the value.
    Executed,
    /// A transient failure was recorded and a later retry armed; the
    /// proposal stays `Approved` and nothing moves yet.
    RetryScheduled,
}

/// The whole state of one vault.
pub struct VaultDAO {
    /// Whether `initialize` has run; nothing else works before it has.
    pub initialized: bool,
    /// The current configuration; meaningful once initialized.
    pub config: InitConfig,
    /// Role assignments, one row per identity; absent means `Member`.
    pub roles: Vec<(u64, Role)>,
    /// Proposals by id: the proposal with id `k` lives at index `k - 1`;
    /// a cleaned-up proposal leaves `None` behind.
    pub proposals: Vec<Option<Proposal>>,
    /// Delegation records by id, never deleted: id `k` at index `k - 1`.
    pub delegations: Vec<Delegation>,
    /// Amount reserved per day number.
    pub daily_spent: Vec<(u64, i128)>,
    /// Amount reserved per week number.
    pub weekly_spent: Vec<(u64, i128)>,
    /// Per-signer action timestamps for the velocity window.
    pub velocity: Vec<(u64, Vec<u64>)>,
    /// The append-only audit chain.
    pub audit_log: Vec<AuditEntry>,
    /// Retry bookkeeping per proposal id, created on first transient failure.
    pub retries: Vec<(u64, RetryState)>,
    /// Recipient list mode.
    pub list_mode: ListMode,
    /// Allowed recipients when the mode is `Whitelist`.
    pub whitelist: Vec<u64>,
    /// Blocked recipients when the mode is `Blacklist`.
    pub blacklist: Vec<u64>,
    /// One record per cancelled proposal, in cancellation order.
    pub cancellations: Vec<CancellationRecord>,
}

/// Role rows carry each identity at most once.
pub open spec fn roles_unique(s: Seq<(u64, Role)>) -> bool {
    forall|i: int, j: int| 0 <= i < j < s.len() ==> s[i].0 != s[j].0
}

/// Some role row belongs to this identity.
pub open spec fn roles_has(s: Seq<(u64, Role)>, who: u64) -> bool {
    exists|i: int| 0 <= i < s.len() && s[i].0 == who
}

/// The index of this identity's role row.
pub open spec fn roles_index(s: Seq<(u64, Role)>, who: u64) -> int {
    choose|i: int| 0 <= i < s.len() && s[i].0 == who
}

/// The role assigned to an identity; `Member` when none was assigned.
pub open spec fn spec_role_of(s: Seq<(u64, Role)>, who: u64) -> Role {
    if roles_has(s, who) {
        s[roles_index(s, who)].1
    } else {
        Role::Member
    }
}

/// Retry rows carry each proposal id at most once.
pub open spec fn retries_unique(s: Seq<(u64, RetryState)>) -> bool {
    forall|i: int, j: int| 0 <= i < j < s.len() ==> s[i].0 != s[j].0
}

/// Some retry row belongs to this proposal.
pub open spec fn retries_has(s: Seq<(u64, RetryState)>, id: u64) -> bool {
    exists|i: int| 0 <= i < s.len() && s[i].0 == id
}

/// The index of this proposal's retry row.
pub open spec fn retries_index(s: Seq<(u64, RetryState)>, id: u64) -> int {
    choose|i: int| 0 <= i < s.len() && s[i].0 == id
}

/// The retry state recorded for a proposal, if any.
pub open spec fn spec_retry_of(s: Seq<(u64, RetryState)>, id: u64) -> Option<RetryState> {
    if retries_has(s, id) {
        Some(s[retries_index(s, id)].1)
    } else {
        None
    }
}

impl VaultDAO {
    /// The proposal stored under this id, if any.
    pub open spec fn spec_proposal(self, id: u64) -> Option<Proposal> {
        if 1 <= id <= self.proposals@.len() {
            self.proposals@[id - 1]
        } else {
            None
        }
    }

    /// The engine invariant: a valid configuration once initialized, ids
    /// that match positions, well-formed voting records, unique keys in
    /// every keyed table, non-negative spend counters, and a well-formed
    /// audit chain.
    pub open spec fn wf(self) -> bool {
        &&& self.initialized ==> config_valid(self.config)
        &&& forall|i: int|
            0 <= i < self.proposals@.len() ==> ((#[trigger] self.proposals@[i]) matches Some(p)
                ==> p.id == i + 1 && proposal_wf(p))
        &&& forall|i: int|
            0 <= i < self.delegations@.len() ==> (#[trigger] self.delegations@[i]).id == i + 1
        &&& roles_unique(self.roles@)
        &&& retries_unique(self.retries@)
        &&& bucket_keys_unique(self.daily_spent@)
        &&& bucket_nonneg(self.daily_spent@)
        &&& bucket_keys_unique(self.weekly_spent@)
        &&& bucket_nonneg(self.weekly_spent@)
        &&& vel_keys_unique(self.velocity@)
        &&& chain_wf(self.audit_log@)
        &&& no_duplicates(self.whitelist@)
        &&& no_duplicates(self.blacklist@)
    }
}

/// The proposal store only ever steps along the allowed state machine:
/// existing ids keep their position, every status change is one the state
/// machine permits, and only an `Expired` proposal can disappear (cleanup
/// after its grace period). Together with `lemma_terminal_status_is_final`
/// and `lemma_terminal_status_never_changes` this is the guarantee that a
/// terminal proposal never changes again.
pub open spec fn proposals_step_ok(pre: VaultDAO, post: VaultDAO) -> bool {
    &&& post.proposals@.len() >= pre.proposals@.len()
    &&& forall|i: int|
        0 <= i < pre.proposals@.len() ==> match (
            pre.proposals@[i],
            #[trigger] post.proposals@[i],
        ) {
            (Some(p0), Some(p1)) => status_step_allowed(p0.status, p1.status),
            (Some(p0), None) => p0.status is Expired,
            (None, Some(_)) => false,
            (None, None) => true,
        }
}

/// The post state's audit log is the pre state's with exactly this entry
/// appended.
pub open spec fn audit_extended(
    pre: VaultDAO,
    post: VaultDAO,
    action: AuditAction,
    actor: u64,
    target: u64,
    now: u64,
) -> bool {
    post.audit_log@ == pre.audit_log@.push(
        spec_next_entry(pre.audit_log@, action, actor, target, now),
    )
}

/// Whether a sequence of identities contains one; the exec mirror of
/// `Seq::contains`.
pub(crate) fn seq_contains(v: &Vec<u64>, x: u64) -> (b: bool)
    ensures
        b == v@.contains(x),
{
    let mut i: usize = 0;
    while i < v.len()
        invariant
            0 <= i <= v@.len(),
            forall|j: int| 0 <= j < i ==> v@[j] != x,
        decreases v@.len() - i,
    {
        if v[i] == x {
            return true;
        }
        i = i + 1;
    }
    false
}

/// Whether any identity occurs twice in the list.
fn has_duplicate_ids(v: &Vec<u64>) -> (b: bool)
    ensures
        b == !no_duplicates(v@),
{
    let n = v.len();
    let mut i: usize = 0;
    while i < n
        invariant
            0 <= i <= n,
            n == v@.len(),
            forall|a: int, b: int| 0 <= a < b < v@.len() && a < i ==> v@[a] != v@[b],
        decreases n - i,
    {
        let mut j: usize = i + 1;
        while j < n
            invariant
                i < j <= n,
                n == v@.len(),
                forall|b: int| i < b < j ==> v@[i as int] != v@[b],
            decreases n - j,
        {
            if v[i] == v[j] {
                return true;
            }
            j = j + 1;
        }
        i = i + 1;
    }
    false
}

/// Reads the role assigned to an identity; `Member` when none is recorded.
pub(crate) fn lookup_role(roles: &Vec<(u64, Role)>, who: u64) -> (r: Role)
    requires
        roles_unique(roles@),
    ensures
        r == spec_role_of(roles@, who),
{
    let mut i: usize = 0;
    while i < roles.len()
        invariant
            0 <= i <= roles@.len(),
            roles_unique(roles@),
            forall|j: int| 0 <= j < i ==> roles@[j].0 != who,
        decreases roles@.len() - i,
    {
        if roles[i].0 == who {
            proof {
                assert(roles_has(roles@, who));
                let j = roles_index(roles@, who);
                assert(0 <= j < roles@.len() && roles@[j].0 == who);
                if j != i {
                    assert(roles@[j].0 == roles@[i as int].0);
                }
            }
            return roles[i].1;
        }
        i = i + 1;
    }
    proof {
        if roles_has(roles@, who) {
            let j = roles_index(roles@, who);
            assert(roles@[j].0 != who);
        }
    }
    Role::Member
}

/// Writes an identity's role row, replacing an existing row or adding one.
pub(crate) fn store_role(roles: &mut Vec<(u64, Role)>, who: u64, role: Role)
    requires
        roles_unique(old(roles)@),
    ensures
        roles_unique(final(roles)@),
        spec_role_of(final(roles)@, who) == role,
        forall|w: u64| w != who ==> spec_role_of(final(roles)@, w) == spec_role_of(old(roles)@, w),
{
    let ghost s0 = roles@;
    let mut i: usize = 0;
    while i < roles.len()
        invariant
            0 <= i <= roles@.len(),
            roles@ == s0,
            s0 == old(roles)@,
            roles_unique(s0),
            forall|j: int| 0 <= j < i ==> s0[j].0 != who,
        decreases roles@.len() - i,
    {
        if roles[i].0 == who {
            roles[i] = (who, role);
            proof {
                assert(roles_unique(roles@));
                lemma_role_frame(s0, roles@, who, i as int);
            }
            return ;
        }
        i = i + 1;
    }
    proof {
        if roles_has(s0, who) {
            let j = roles_index(s0, who);
            assert(s0[j].0 != who);
        }
    }
    roles.push((who, role));
    proof {
        assert(roles_unique(roles@));
        lemma_role_at(roles@, who, s0.len() as int);
        assert forall|w: u64| w != who implies spec_role_of(roles@, w) == spec_role_of(s0, w) by {
            if roles_has(s0, w) {
                let j = roles_index(s0, w);
                assert(roles@[j].0 == w);
                lemma_role_at(roles@, w, j);
            } else {
                if roles_has(roles@, w) {
                    let j = roles_index(roles@, w);
                    assert(0 <= j < roles@.len() && roles@[j].0 == w);
                    assert(j < s0.len());
                    assert(s0[j].0 == w);
                }
            }
        }
    }
}

/// A role row with this key at this index determines the role.
proof fn lemma_role_at(s: Seq<(u64, Role)>, who: u64, i: int)
    requires
        roles_unique(s),
        0 <= i < s.len(),
        s[i].0 == who,
    ensures
        roles_has(s, who),
        roles_index(s, who) == i,
        spec_role_of(s, who) == s[i].1,
{
    assert(roles_has(s, who));
    let j = roles_index(s, who);
    assert(0 <= j < s.len() && s[j].0 == who);
    if i != j {
        assert(s[i].0 == s[j].0);
        assert(false);
    }
}

/// Updating one row in place leaves every other identity's role unchanged.
proof fn lemma_role_frame(s0: Seq<(u64, Role)>, s1: Seq<(u64, Role)>, who: u64, at: int)
    requires
        roles_unique(s0),
        s0.len() == s1.len(),
        0 <= at < s0.len(),
        s0[at].0 == who,
        s1[at].0 == who,
        forall|j: int| 0 <= j < s0.len() && j != at ==> s1[j] == s0[j],
    ensures
        forall|w: u64| w != who ==> spec_role_of(s1, w) == spec_role_of(s0, w),
        spec_role_of(s1, who) == s1[at].1,
{
    assert(roles_unique(s1));
    lemma_role_at(s1, who, at);
    assert forall|w: u64| w != who implies spec_role_of(s1, w) == spec_role_of(s0, w) by {
        if roles_has(s0, w) {
            let j = roles_index(s0, w);
            assert(j != at);
            assert(s1[j].0 == w);
            lemma_role_at(s1, w, j);
            lemma_role_at(s0, w, j);
        } else {
            if roles_has(s1, w) {
                let j = roles_index(s1, w);
                assert(j != at);
                assert(s0[j].0 == w);
            }
        }
    }
}

/// Reads the retry state recorded for a proposal, if any.
pub(crate) fn lookup_retry(retries: &Vec<(u64, RetryState)>, id: u64) -> (r: Option<RetryState>)
    requires
        retries_unique(retries@),
    ensures
        r == spec_retry_of(retries@, id),
{
    let mut i: usize = 0;
    while i < retries.len()
        invariant
            0 <= i <= retries@.len(),
            retries_unique(retries@),
            forall|j: int| 0 <= j < i ==> retries@[j].0 != id,
        decreases retries@.len() - i,
    {
        if retries[i].0 == id {
            proof {
                assert(retries_has(retries@, id));
                let j = retries_index(retries@, id);
                assert(0 <= j < retries@.len() && retries@[j].0 == id);
                if j != i {
                    assert(retries@[j].0 == retries@[i as int].0);
                }
            }
            return Some(retries[i].1);
        }
        i = i + 1;
    }
    proof {
        if retries_has(retries@, id) {
            let j = retries_index(retries@, id);
            assert(retries@[j].0 != id);
        }
    }
    None
}

impl VaultDAO {
    /// A fresh, uninitialized vault with no state at all.
    pub fn new() -> (v: VaultDAO)
        ensures
            v.wf(),
            !v.initialized,
            v.proposals@.len() == 0,
            v.delegations@.len() == 0,
            v.audit_log@.len() == 0,
            v.cancellations@.len() == 0,
            v.roles@.len() == 0,
            v.retries@.len() == 0,
            v.daily_spent@.len() == 0,
            v.weekly_spent@.len() == 0,
            v.velocity@.len() == 0,
            v.whitelist@.len() == 0,
            v.blacklist@.len() == 0,
            v.list_mode == ListMode::Disabled,
    {
        VaultDAO {
            initialized: false,
            config: InitConfig {
                signers: Vec::new(),
                threshold: 0,
                quorum: 0,
                spending_limit: 0,
                daily_limit: 0,
                weekly_limit: 0,
                timelock_threshold: 0,
                timelock_delay: 0,
                velocity_limit: crate::types::VelocityConfig { limit: 0, window: 0 },
                threshold_strategy: crate::types::ThresholdStrategy::Fixed,
                default_voting_deadline: 0,
                retry_config: crate::types::RetryConfig {
                    enabled: false,
                    max_retries: 0,
                    initial_backoff_ledgers: 0,
                },
                expiration_period: 0,
                grace_period: 0,
            },
            roles: Vec::new(),
            proposals: Vec::new(),
            delegations: Vec::new(),
            daily_spent: Vec::new(),
            weekly_spent: Vec::new(),
            velocity: Vec::new(),
            audit_log: Vec::new(),
            retries: Vec::new(),
            list_mode: ListMode::Disabled,
            whitelist: Vec::new(),
            blacklist: Vec::new(),
            cancellations: Vec::new(),
        }
    }

    /// Sets up the vault: validates the configuration, stores it, makes
    /// `admin` an `Admin`, and records the first audit entry. Runs once;
    /// a second call fails with `AlreadyInitialized`.
    #[verifier::rlimit(50)]
    pub fn initialize(&mut self, admin: u64, config: InitConfig, now: u64) -> (r: Result<
        (),
        VaultError,
    >)
        requires
            old(self).wf(),
            old(self).audit_log@.len() < u64::MAX,
        ensures
            final(self).wf(),
            proposals_step_ok(*old(self), *final(self)),
            match r {
                Ok(()) => {
                    &&& !old(self).initialized
                    &&& config_valid(config)
                    &&& final(self).initialized
                    &&& final(self).config == config
                    &&& spec_role_of(final(self).roles@, admin) == Role::Admin
                    &&& forall|w: u64|
                        w != admin ==> spec_role_of(final(self).roles@, w) == spec_role_of(
                            old(self).roles@,
                            w,
                        )
                    &&& audit_extended(
                        *old(self),
                        *final(self),
                        AuditAction::Initialize,
                        admin,
                        0,
                        now,
                    )
                    &&& final(self).proposals == old(self).proposals
                    &&& final(self).delegations == old(self).delegations
                    &&& final(self).daily_spent == old(self).daily_spent
                    &&& final(self).weekly_spent == old(self).weekly_spent
                    &&& final(self).velocity == old(self).velocity
                    &&& final(self).retries == old(self).retries
                    &&& final(self).list_mode == old(self).list_mode
                    &&& final(self).whitelist == old(self).whitelist
                    &&& final(self).blacklist == old(self).blacklist
                    &&& final(self).cancellations == old(self).cancellations
                },
                Err(e) => {
                    &&& *final(self) == *old(self)
                    &&& if old(self).initialized {
                        e == VaultError::AlreadyInitialized
                    } else if config.signers@.len() == 0 {
                        e == VaultError::NoSigners
                    } else if config.threshold < 1 {
                        e == VaultError::ThresholdTooLow
                    } else if config.threshold > config.signers@.len() {
                        e == VaultError::ThresholdTooHigh
                    } else if config.quorum > config.signers@.len() {
                        e == VaultError::QuorumTooHigh
                    } else if !(config.spending_limit > 0 && config.daily_limit > 0
                        && config.weekly_limit > 0) {
                        e == VaultError::InvalidAmount
                    } else if !no_duplicates(config.signers@) {
                        e == VaultError::SignerAlreadyExists
                    } else {
                        false
                    }
                },
            },
    {
        if self.initialized {
            return Err(VaultError::AlreadyInitialized);
        }
        if config.signers.len() == 0 {
            return Err(VaultError::NoSigners);
        }
        if config.threshold < 1 {
            return Err(VaultError::ThresholdTooLow);
        }
        if config.threshold as usize > config.signers.len() {
            return Err(VaultError::ThresholdTooHigh);
        }
        if config.quorum as usize > config.signers.len() {
            return Err(VaultError::QuorumTooHigh);
        }
        if config.spending_limit <= 0 || config.daily_limit <= 0 || config.weekly_limit <= 0 {
            return Err(VaultError::InvalidAmount);
        }
        if has_duplicate_ids(&config.signers) {
            return Err(VaultError::SignerAlreadyExists);
        }

        self.config = config;
        self.initialized = true;
        store_role(&mut self.roles, admin, Role::Admin);
        append_audit(&mut self.audit_log, AuditAction::Initialize, admin, 0, now);

        Ok(())
    }

    /// The role of an identity; `Member` unless something else was assigned.
    pub fn get_role(&self, addr: u64) -> (r: Role)
        requires
            self.wf(),
        ensures
            r == spec_role_of(self.roles@, addr),
    {
        lookup_role(&self.roles, addr)
    }

    /// The proposal stored under this id.
    pub fn get_proposal(&self, proposal_id: u64) -> (r: Result<&Proposal, VaultError>)
        ensures
            match r {
                Ok(p) => self.spec_proposal(proposal_id) == Some(*p),
                Err(e) => {
                    &&& e == VaultError::ProposalNotFound
                    &&& self.spec_proposal(proposal_id) is None
                },
            },
    {
        if proposal_id == 0 || proposal_id > self.proposals.len() as u64 {
            return Err(VaultError::ProposalNotFound);
        }
        match &self.proposals[(proposal_id - 1) as usize] {
            Some(p) => Ok(p),
            None => Err(VaultError::ProposalNotFound),
        }
    }

    /// Whether this identity is in the current signer set; fails before
    /// initialization.
    pub fn is_signer(&self, addr: u64) -> (r: Result<bool, VaultError>)
        ensures
            match r {
                Ok(b) => self.initialized && b == self.config.signers@.contains(addr),
                Err(e) => !self.initialized && e == VaultError::NotInitialized,
            },
    {
        if !self.initialized {
            return Err(VaultError::NotInitialized);
        }
        Ok(seq_contains(&self.config.signers, addr))
    }

    /// The amount reserved against the day bucket `day`.
    pub fn get_daily_spent(&self, day: u64) -> (r: i128)
        requires
            self.wf(),
        ensures
            r == bucket_get(self.daily_spent@, day),
    {
        bucket_lookup(&self.daily_spent, day)
    }

    /// The amount reserved against the week bucket `week`.
    pub fn get_weekly_spent(&self, week: u64) -> (r: i128)
        requires
            self.wf(),
        ensures
            r == bucket_get(self.weekly_spent@, week),
    {
        bucket_lookup(&self.weekly_spent, week)
    }

    /// The amount reserved against the day bucket that `now` falls in.
    pub fn get_today_spent(&self, now: u64) -> (r: i128)
        requires
            self.wf(),
        ensures
            r == bucket_get(self.daily_spent@, day_number(now)),
    {
        bucket_lookup(&self.daily_spent, now / 86_400)
    }

    /// The retry state recorded for a proposal, if any.
    pub fn get_retry_state(&self, proposal_id: u64) -> (r: Option<RetryState>)
        requires
            self.wf(),
        ensures
            r == spec_retry_of(self.retries@, proposal_id),
    {
        lookup_retry(&self.retries, proposal_id)
    }

    /// The audit entry with this id.
    pub fn get_audit_entry(&self, entry_id: u64) -> (r: Result<AuditEntry, VaultError>)
        ensures
            match r {
                Ok(e) => 1 <= entry_id <= self.audit_log@.len() && e == self.audit_log@[entry_id
                    - 1],
                Err(e) => {
                    &&& e == VaultError::ProposalNotFound
                    &&& !(1 <= entry_id <= self.audit_log@.len())
                },
            },
    {
        if entry_id == 0 || entry_id > self.audit_log.len() as u64 {
            return Err(VaultError::ProposalNotFound);
        }
        Ok(self.audit_log[(entry_id - 1) as usize])
    }

    /// Checks the integrity of the stored audit chain over the id range
    /// `start_id ..= end_id`; on the engine's own untouched log this is
    /// always `Ok(true)` for an in-range request.
    pub fn verify_audit_trail(&self, start_id: u64, end_id: u64) -> (r: Result<bool, VaultError>)
        requires
            self.wf(),
        ensures
            start_id > end_id ==> r == Err::<bool, VaultError>(VaultError::InvalidAmount),
            start_id <= end_id && (start_id == 0 || end_id > self.audit_log@.len()) ==> r == Err::<
                bool,
                VaultError,
            >(VaultError::ProposalNotFound),
            1 <= start_id <= end_id <= self.audit_log@.len() ==> r == Ok::<bool, VaultError>(true),
    {
        proof {
            if 1 <= start_id <= end_id <= self.audit_log@.len() {
                lemma_untouched_chain_verifies(
                    self.audit_log@,
                    start_id as int,
                    end_id as int,
                );
            }
        }
        verify_entries(&self.audit_log, start_id, end_id)
    }
}

/// The law of terminal states: across any engine step (every mutating
/// entry point ensures `proposals_step_ok`), a proposal whose status is
/// terminal keeps exactly that status — the only other possibility being
/// that an `Expired` record was purged after its grace period.
pub proof fn lemma_terminal_status_never_changes(pre: VaultDAO, post: VaultDAO, id: u64)
    requires
        proposals_step_ok(pre, post),
        pre.spec_proposal(id) matches Some(p0) && is_terminal(p0.status),
    ensures
        pre.spec_proposal(id) matches Some(p0) ==> match post.spec_proposal(id) {
            Some(p1) => p1.status == p0.status,
            None => p0.status is Expired,
        },
{
    if 1 <= id <= pre.proposals@.len() {
        let after = post.proposals@[id - 1];
        match (pre.proposals@[id - 1], after) {
            (Some(p0), Some(p1)) => {
                lemma_terminal_status_is_final(p0.status, p1.status);
            },
            _ => {},
        }
    }
}

/// The day bucket a timestamp falls in.
pub open spec fn day_number(now: u64) -> u64 {
    now / 86_400
}

/// The week bucket a timestamp falls in.
pub open spec fn week_number(now: u64) -> u64 {
    now / 604_800
}

} // verus!
