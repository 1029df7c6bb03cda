use vaultdao::AuditAction;
use vaultdao::InitConfig;
use vaultdao::RetryConfig;
use vaultdao::Role;
use vaultdao::ThresholdStrategy;
use vaultdao::VaultDAO;
use vaultdao::VelocityConfig;
use vaultdao::compute_audit_hash;
use vaultdao::verify_entries;

const ADMIN: u64 = 1;
const SIGNER1: u64 = 2;
const SIGNER2: u64 = 3;
const USER: u64 = 10;
const TOKEN: u64 = 100;
const MEMO: u64 = 7;

fn audit_config(signers: Vec<u64>, threshold: u32, quorum: u32) -> InitConfig {
    InitConfig {
        signers,
        threshold,
        quorum,
        spending_limit: 1000,
        daily_limit: 5000,
        weekly_limit: 10000,
        timelock_threshold: 500,
        timelock_delay: 100,
        velocity_limit: VelocityConfig { limit: 100, window: 3600 },
        threshold_strategy: ThresholdStrategy::Fixed,
        default_voting_deadline: 0,
        retry_config: RetryConfig { enabled: false, max_retries: 0, initial_backoff_ledgers: 0 },
        expiration_period: 120_960,
        grace_period: 720,
    }
}

#[test]
fn test_audit_trail_creation() {
    let mut vault = VaultDAO::new();
    let config = audit_config(vec![ADMIN, SIGNER1], 1, 0);
    vault.initialize(ADMIN, config, 0).unwrap();

    // Initialization writes the first entry.
    let audit_entry = vault.get_audit_entry(1).unwrap();
    assert_eq!(audit_entry.id, 1);
    assert_eq!(audit_entry.action, AuditAction::Initialize);
    assert_eq!(audit_entry.actor, ADMIN);
    assert_eq!(audit_entry.prev_hash, 0);

    // A role assignment links to it.
    vault.set_role(ADMIN, SIGNER1, Role::Treasurer, 0).unwrap();
    let audit_entry2 = vault.get_audit_entry(2).unwrap();
    assert_eq!(audit_entry2.action, AuditAction::SetRole);
    assert_eq!(audit_entry2.prev_hash, audit_entry.hash);
}

#[test]
fn test_audit_trail_hash_chain() {
    let mut vault = VaultDAO::new();
    let config = audit_config(vec![ADMIN, SIGNER1], 1, 0);
    vault.initialize(ADMIN, config, 0).unwrap();
    vault.set_role(ADMIN, SIGNER1, Role::Treasurer, 0).unwrap();

    let proposal_id = vault.propose_transfer(SIGNER1, USER, TOKEN, 100, MEMO, 0).unwrap();
    vault.approve_proposal(SIGNER1, proposal_id, 0).unwrap();

    let entry1 = vault.get_audit_entry(1).unwrap();
    let entry2 = vault.get_audit_entry(2).unwrap();
    let entry3 = vault.get_audit_entry(3).unwrap();
    let entry4 = vault.get_audit_entry(4).unwrap();

    assert_eq!(entry2.prev_hash, entry1.hash);
    assert_eq!(entry3.prev_hash, entry2.hash);
    assert_eq!(entry4.prev_hash, entry3.hash);
}

#[test]
fn test_audit_trail_verification() {
    let mut vault = VaultDAO::new();
    let config = audit_config(vec![ADMIN, SIGNER1], 1, 0);
    vault.initialize(ADMIN, config, 0).unwrap();
    vault.set_role(ADMIN, SIGNER1, Role::Treasurer, 0).unwrap();
    vault.add_signer(ADMIN, USER, 0).unwrap();

    let is_valid = vault.verify_audit_trail(1, 3).unwrap();
    assert_eq!(is_valid, true);
}

#[test]
fn test_audit_trail_all_actions() {
    let mut vault = VaultDAO::new();
    // A quorum of 2 keeps the proposal pending after one approval, so the
    // rejection below acts on a pending proposal as the state machine
    // requires.
    let config = audit_config(vec![ADMIN, SIGNER1], 1, 2);
    vault.initialize(ADMIN, config, 0).unwrap();
    vault.set_role(ADMIN, SIGNER1, Role::Treasurer, 0).unwrap();
    vault.add_signer(ADMIN, SIGNER2, 0).unwrap();

    let proposal_id = vault.propose_transfer(SIGNER1, USER, TOKEN, 100, MEMO, 0).unwrap();
    vault.approve_proposal(SIGNER1, proposal_id, 0).unwrap();
    vault.reject_proposal(ADMIN, proposal_id, 0).unwrap();

    vault.update_limits(ADMIN, 2000, 10000, 0).unwrap();
    vault.update_threshold(ADMIN, 2, 0).unwrap();
    vault.remove_signer(ADMIN, SIGNER2, 0).unwrap();

    assert_eq!(vault.get_audit_entry(1).unwrap().action, AuditAction::Initialize);
    assert_eq!(vault.get_audit_entry(2).unwrap().action, AuditAction::SetRole);
    assert_eq!(vault.get_audit_entry(3).unwrap().action, AuditAction::AddSigner);
    assert_eq!(vault.get_audit_entry(4).unwrap().action, AuditAction::ProposeTransfer);
    assert_eq!(vault.get_audit_entry(5).unwrap().action, AuditAction::ApproveProposal);
    assert_eq!(vault.get_audit_entry(6).unwrap().action, AuditAction::RejectProposal);
    assert_eq!(vault.get_audit_entry(7).unwrap().action, AuditAction::UpdateLimits);
    assert_eq!(vault.get_audit_entry(8).unwrap().action, AuditAction::UpdateThreshold);
    assert_eq!(vault.get_audit_entry(9).unwrap().action, AuditAction::RemoveSigner);

    let is_valid = vault.verify_audit_trail(1, 9).unwrap();
    assert_eq!(is_valid, true);
}

#[test]
fn audit_hash_recomputes_from_the_fields() {
    // One exact value pinned down by hand: the hash mixes the previous
    // hash with the action code, actor, target and timestamp, multiplying
    // by the 64-bit FNV prime (0x100000001B3) before each addition.
    // For Initialize (code 0), actor 1, target 0, timestamp 0, prev 0:
    //   h = 0*P + 0 = 0; h = 0*P + 1 = 1; h = 1*P + 0 = P; h = P*P + 0.
    let p: u64 = 0x100000001B3;
    let expected = p.wrapping_mul(p);
    assert_eq!(compute_audit_hash(vaultdao::AuditAction::Initialize, 1, 0, 0, 0), expected);

    // The engine stores exactly this value for such an initialization.
    let mut vault = VaultDAO::new();
    let config = audit_config(vec![ADMIN], 1, 0);
    vault.initialize(ADMIN, config, 0).unwrap();
    let entry = vault.get_audit_entry(1).unwrap();
    assert_eq!(entry.hash, expected);
}

#[test]
fn tampered_entries_fail_verification() {
    let mut vault = VaultDAO::new();
    let config = audit_config(vec![ADMIN, SIGNER1], 1, 0);
    vault.initialize(ADMIN, config, 0).unwrap();
    vault.set_role(ADMIN, SIGNER1, Role::Treasurer, 0).unwrap();
    vault.add_signer(ADMIN, USER, 0).unwrap();

    // Rebuild the stored chain from its entries; untouched, it verifies.
    let mut entries = Vec::new();
    for id in 1..=3u64 {
        entries.push(vault.get_audit_entry(id).unwrap());
    }
    assert_eq!(verify_entries(&entries, 1, 3), Ok(true));

    // Mutating any single field out of band breaks verification.
    let mut tampered = entries.clone();
    tampered[1].actor = 99;
    assert_eq!(verify_entries(&tampered, 1, 3), Ok(false));

    let mut tampered = entries.clone();
    tampered[2].timestamp = 55;
    assert_eq!(verify_entries(&tampered, 1, 3), Ok(false));

    // Recomputing the hash of a doctored interior entry does not help:
    // the next entry's back link no longer matches.
    let mut tampered = entries.clone();
    tampered[1].target = 42;
    tampered[1].hash = compute_audit_hash(
        tampered[1].action,
        tampered[1].actor,
        tampered[1].target,
        tampered[1].timestamp,
        tampered[1].prev_hash,
    );
    assert_eq!(verify_entries(&tampered, 1, 3), Ok(false));

    // Range errors are reported as errors, not as verification failures.
    assert!(verify_entries(&entries, 3, 1).is_err());
    assert!(verify_entries(&entries, 1, 4).is_err());
    assert!(verify_entries(&entries, 0, 2).is_err());
}

#[test]
fn verification_of_a_subrange_ignores_links_before_it() {
    // The back link is checked only for entries after the first of the
    // requested range: a corrupted stored hash on the entry just before
    // the range fails a verification that includes it, but not one that
    // starts after it.
    let mut vault = VaultDAO::new();
    let config = audit_config(vec![ADMIN, SIGNER1], 1, 0);
    vault.initialize(ADMIN, config, 0).unwrap();
    vault.set_role(ADMIN, SIGNER1, Role::Treasurer, 0).unwrap();

    let mut entries = Vec::new();
    for id in 1..=2u64 {
        entries.push(vault.get_audit_entry(id).unwrap());
    }
    let mut tampered = entries.clone();
    tampered[0].hash = tampered[0].hash.wrapping_add(1);

    assert_eq!(verify_entries(&tampered, 1, 2), Ok(false));
    assert_eq!(verify_entries(&tampered, 2, 2), Ok(true));
}
