//! The append-only, hash-linked audit log.
//!
//! Each entry's hash is computed from its own fields and the previous entry's
//! hash by a simple deterministic mixing function. The chain gives tamper
//! evidence against accidental corruption; it is not a cryptographic
//! primitive. Entry ids are assigned in append order starting at 1, and the
//! entry with id `k` sits at index `k - 1`.

use vstd::prelude::*;

use crate::errors::VaultError;
use crate::types::AuditAction;
use crate::types::AuditEntry;

verus! {

/// Multiplier of the mixing step (the 64-bit FNV prime).
pub const AUDIT_HASH_PRIME: u64 = 0x100000001B3;

/// A stable numeric code for each audit action, folded into the hash.
pub open spec fn spec_action_code(a: AuditAction) -> u64 {
    match a {
        AuditAction::Initialize => 0,
        AuditAction::ProposeTransfer => 1,
        AuditAction::ApproveProposal => 2,
        AuditAction::ExecuteProposal => 3,
        AuditAction::RejectProposal => 4,
        AuditAction::SetRole => 5,
        AuditAction::AddSigner => 6,
        AuditAction::RemoveSigner => 7,
        AuditAction::UpdateLimits => 8,
        AuditAction::UpdateThreshold => 9,
    }
}

/// One order-sensitive mixing step: multiply by the prime, add the next word,
/// both wrapping modulo 2^64.
pub open spec fn spec_audit_mix(h: u64, x: u64) -> u64 {
    h.wrapping_mul(AUDIT_HASH_PRIME).wrapping_add(x)
}

/// The hash of an entry with these fields: the previous hash mixed with the
/// action code, the actor, the target and the timestamp, in that order.
/// Opaque so that callers reason about hashes as values; `compute_audit_hash`
/// is the one place that unfolds the formula.
#[verifier::opaque]
pub open spec fn spec_entry_hash(
    action: AuditAction,
    actor: u64,
    target: u64,
    timestamp: u64,
    prev_hash: u64,
) -> u64 {
    spec_audit_mix(
        spec_audit_mix(spec_audit_mix(spec_audit_mix(prev_hash, spec_action_code(action)), actor), target),
        timestamp,
    )
}

/// An entry's stored hash matches its fields.
pub open spec fn entry_hash_ok(e: AuditEntry) -> bool {
    e.hash == spec_entry_hash(e.action, e.actor, e.target, e.timestamp, e.prev_hash)
}

/// A well-formed log: ids count up from 1, every hash matches its fields,
/// the first entry's `prev_hash` is 0, and each later entry's `prev_hash`
/// is the previous entry's hash.
pub open spec fn chain_wf(log: Seq<AuditEntry>) -> bool {
    forall|i: int|
        0 <= i < log.len() ==> {
            let e = #[trigger] log[i];
            &&& e.id == i + 1
            &&& entry_hash_ok(e)
            &&& (i == 0 ==> e.prev_hash == 0)
            &&& (i > 0 ==> e.prev_hash == log[i - 1].hash)
        }
}

/// What `verify_entries` checks of the entry with id `id` inside the range
/// beginning at `start`: its stored hash recomputes from its fields, and,
/// for every entry after the first of the range, its `prev_hash` equals the
/// previous entry's stored hash. The first entry's back link points outside
/// the requested range and is deliberately not checked.
pub open spec fn entry_verifies(log: Seq<AuditEntry>, start: int, id: int) -> bool {
    &&& entry_hash_ok(log[id - 1])
    &&& (id > start ==> log[id - 1].prev_hash == log[id - 2].hash)
}

/// Every entry in the id range `start ..= end` verifies.
pub open spec fn range_verifies(log: Seq<AuditEntry>, start: int, end: int) -> bool {
    forall|id: int| start <= id <= end ==> #[trigger] entry_verifies(log, start, id)
}

/// Computes the audit hash of an entry from its fields and the previous
/// entry's hash; see `spec_entry_hash` for the exact formula.
pub fn compute_audit_hash(
    action: AuditAction,
    actor: u64,
    target: u64,
    timestamp: u64,
    prev_hash: u64,
) -> (r: u64)
    ensures
        r == spec_entry_hash(action, actor, target, timestamp, prev_hash),
{
    proof {
        reveal(spec_entry_hash);
    }
    let code: u64 = match action {
        AuditAction::Initialize => 0,
        AuditAction::ProposeTransfer => 1,
        AuditAction::ApproveProposal => 2,
        AuditAction::ExecuteProposal => 3,
        AuditAction::RejectProposal => 4,
        AuditAction::SetRole => 5,
        AuditAction::AddSigner => 6,
        AuditAction::RemoveSigner => 7,
        AuditAction::UpdateLimits => 8,
        AuditAction::UpdateThreshold => 9,
    };
    let mut h: u64 = prev_hash;
    h = h.wrapping_mul(AUDIT_HASH_PRIME).wrapping_add(code);
    h = h.wrapping_mul(AUDIT_HASH_PRIME).wrapping_add(actor);
    h = h.wrapping_mul(AUDIT_HASH_PRIME).wrapping_add(target);
    h = h.wrapping_mul(AUDIT_HASH_PRIME).wrapping_add(timestamp);
    h
}

/// The entry that appending `action` by `actor` on `target` at `now` adds
/// to a log: the next id, the last entry's hash (0 on an empty log) as
/// `prev_hash`, and the hash recomputed from the fields.
pub open spec fn spec_next_entry(
    log: Seq<AuditEntry>,
    action: AuditAction,
    actor: u64,
    target: u64,
    now: u64,
) -> AuditEntry {
    let prev = if log.len() == 0 {
        0u64
    } else {
        log.last().hash
    };
    AuditEntry {
        id: (log.len() + 1) as u64,
        action,
        actor,
        target,
        timestamp: now,
        prev_hash: prev,
        hash: spec_entry_hash(action, actor, target, now, prev),
    }
}

/// Appends one entry to a well-formed log, keeping it well-formed.
pub fn append_audit(
    log: &mut Vec<AuditEntry>,
    action: AuditAction,
    actor: u64,
    target: u64,
    now: u64,
)
    requires
        chain_wf(old(log)@),
        old(log)@.len() < u64::MAX,
    ensures
        final(log)@ == old(log)@.push(spec_next_entry(old(log)@, action, actor, target, now)),
        chain_wf(final(log)@),
{
    let prev: u64 = if log.len() == 0 {
        0
    } else {
        log[log.len() - 1].hash
    };
    let hash = compute_audit_hash(action, actor, target, now, prev);
    let entry = AuditEntry {
        id: log.len() as u64 + 1,
        action,
        actor,
        target,
        timestamp: now,
        prev_hash: prev,
        hash,
    };
    log.push(entry);
    proof {
        let l = log@;
        assert forall|i: int| 0 <= i < l.len() implies {
            let e = #[trigger] l[i];
            &&& e.id == i + 1
            &&& entry_hash_ok(e)
            &&& (i == 0 ==> e.prev_hash == 0)
            &&& (i > 0 ==> e.prev_hash == l[i - 1].hash)
        } by {
            if i < l.len() - 1 {
                assert(l[i] == old(log)@[i]);
            }
        }
    }
}

/// Walks the entries with ids `start_id ..= end_id` and reports whether
/// every one of them still matches its recorded hash, and every one after
/// the first of the range still matches its link to the entry before it.
/// Entry ids are positions: id `k` is expected at index `k - 1`.
///
/// Returns `Err(InvalidAmount)` when the range is reversed and
/// `Err(ProposalNotFound)` when it reaches outside the log; otherwise
/// `Ok(true)` exactly when the whole range verifies.
pub fn verify_entries(entries: &Vec<AuditEntry>, start_id: u64, end_id: u64) -> (r: Result<
    bool,
    VaultError,
>)
    ensures
        start_id > end_id ==> r == Err::<bool, VaultError>(VaultError::InvalidAmount),
        start_id <= end_id && (start_id == 0 || end_id > entries@.len())
            ==> r == Err::<bool, VaultError>(VaultError::ProposalNotFound),
        1 <= start_id <= end_id <= entries@.len()
            ==> r == Ok::<bool, VaultError>(range_verifies(entries@, start_id as int, end_id as int)),
{
    if start_id > end_id {
        return Err(VaultError::InvalidAmount);
    }
    let n: usize = entries.len();
    if start_id == 0 || end_id > n as u64 {
        return Err(VaultError::ProposalNotFound);
    }
    // The entry with id k sits at index k - 1; walk indexes start_id - 1
    // up to but excluding end_id.
    let mut i: usize = (start_id - 1) as usize;
    let end_index: usize = end_id as usize;
    while i < end_index
        invariant
            start_id - 1 <= i <= end_index,
            end_index == end_id,
            1 <= start_id <= end_id,
            n == entries@.len(),
            end_id <= n,
            forall|k: int|
                start_id <= k <= i ==> #[trigger] entry_verifies(entries@, start_id as int, k),
        decreases end_index - i,
    {
        let e = &entries[i];
        let computed = compute_audit_hash(e.action, e.actor, e.target, e.timestamp, e.prev_hash);
        if computed != e.hash {
            assert(!entry_verifies(entries@, start_id as int, i + 1));
            return Ok(false);
        }
        if i as u64 + 1 > start_id {
            let prev = &entries[i - 1];
            if e.prev_hash != prev.hash {
                assert(!entry_verifies(entries@, start_id as int, i + 1));
                return Ok(false);
            }
        }
        assert(entry_verifies(entries@, start_id as int, i + 1));
        i = i + 1;
    }
    Ok(true)
}

/// An untouched well-formed chain verifies over any in-bounds range: the law
/// behind audit verification returning `true` whenever nothing was altered.
pub proof fn lemma_untouched_chain_verifies(log: Seq<AuditEntry>, start: int, end: int)
    requires
        chain_wf(log),
        1 <= start <= end <= log.len(),
    ensures
        range_verifies(log, start, end),
{
    assert forall|id: int| start <= id <= end implies #[trigger] entry_verifies(
        log,
        start,
        id,
    ) by {
        assert(chain_wf(log));
        assert(0 <= id - 1 < log.len());
        let e = log[id - 1];
        assert(entry_hash_ok(e));
        if id > start {
            assert(log[id - 1].prev_hash == log[id - 2].hash);
        }
    }
}

} // verus!
