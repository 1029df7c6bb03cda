use vaultdao::InitConfig;
use vaultdao::ProposalStatus;
use vaultdao::RetryConfig;
use vaultdao::Role;
use vaultdao::ThresholdStrategy;
use vaultdao::VaultDAO;
use vaultdao::VaultError;
use vaultdao::VelocityConfig;

const ADMIN: u64 = 1;
const SIGNER1: u64 = 2;
const SIGNER2: u64 = 3;
const SIGNER3: u64 = 4;
const SIGNER4: u64 = 5;
const USER: u64 = 10;
const TOKEN: u64 = 100;
const MEMO: u64 = 7;

fn delegation_config(signers: Vec<u64>, threshold: u32) -> InitConfig {
    InitConfig {
        signers,
        threshold,
        quorum: 0,
        spending_limit: 1000,
        daily_limit: 5000,
        weekly_limit: 10000,
        timelock_threshold: 500,
        timelock_delay: 100,
        velocity_limit: VelocityConfig { limit: 100, window: 3600 },
        threshold_strategy: ThresholdStrategy::Fixed,
        default_voting_deadline: 0,
        retry_config: RetryConfig { enabled: false, max_retries: 0, initial_backoff_ledgers: 0 },
        expiration_period: 120_960,
        grace_period: 720,
    }
}

#[test]
fn test_delegation_basic() {
    let mut vault = VaultDAO::new();
    let config = delegation_config(vec![ADMIN, SIGNER1, SIGNER2], 2);
    vault.initialize(ADMIN, config, 0).unwrap();
    vault.set_role(ADMIN, SIGNER1, Role::Treasurer, 0).unwrap();
    vault.set_role(ADMIN, SIGNER2, Role::Treasurer, 0).unwrap();

    // Permanent delegation from signer 1 to signer 2.
    let delegation_id = vault.delegate_voting_power(SIGNER1, SIGNER2, 0, 0).unwrap();
    assert_eq!(delegation_id, 1);

    let delegation = vault.get_delegation(delegation_id).unwrap();
    assert_eq!(delegation.delegator, SIGNER1);
    assert_eq!(delegation.delegate, SIGNER2);
    assert_eq!(delegation.expiry_ledger, 0);
    assert!(delegation.is_active);

    let effective = vault.get_effective_voter(SIGNER1, 0).unwrap();
    assert_eq!(effective, SIGNER2);
}

#[test]
fn test_delegation_temporary() {
    let mut vault = VaultDAO::new();
    let config = delegation_config(vec![ADMIN, SIGNER1, SIGNER2], 2);
    vault.initialize(ADMIN, config, 100).unwrap();
    vault.set_role(ADMIN, SIGNER1, Role::Treasurer, 100).unwrap();
    vault.set_role(ADMIN, SIGNER2, Role::Treasurer, 100).unwrap();

    // Delegation that lapses at ledger 200.
    vault.delegate_voting_power(SIGNER1, SIGNER2, 200, 100).unwrap();

    // Before the lapse it is in force.
    assert_eq!(vault.get_effective_voter(SIGNER1, 100).unwrap(), SIGNER2);

    // After the lapse the signer votes for themselves again.
    assert_eq!(vault.get_effective_voter(SIGNER1, 201).unwrap(), SIGNER1);
}

#[test]
fn test_delegation_chain() {
    let mut vault = VaultDAO::new();
    let config = delegation_config(vec![ADMIN, SIGNER1, SIGNER2, SIGNER3], 2);
    vault.initialize(ADMIN, config, 0).unwrap();
    vault.set_role(ADMIN, SIGNER1, Role::Treasurer, 0).unwrap();
    vault.set_role(ADMIN, SIGNER2, Role::Treasurer, 0).unwrap();
    vault.set_role(ADMIN, SIGNER3, Role::Treasurer, 0).unwrap();

    // Chain: signer 1 -> signer 2 -> signer 3.
    vault.delegate_voting_power(SIGNER1, SIGNER2, 0, 0).unwrap();
    vault.delegate_voting_power(SIGNER2, SIGNER3, 0, 0).unwrap();

    assert_eq!(vault.get_effective_voter(SIGNER1, 0).unwrap(), SIGNER3);
    assert_eq!(vault.get_effective_voter(SIGNER2, 0).unwrap(), SIGNER3);
}

#[test]
fn test_delegation_circular_prevention() {
    let mut vault = VaultDAO::new();
    let config = delegation_config(vec![ADMIN, SIGNER1, SIGNER2], 2);
    vault.initialize(ADMIN, config, 0).unwrap();
    vault.set_role(ADMIN, SIGNER1, Role::Treasurer, 0).unwrap();
    vault.set_role(ADMIN, SIGNER2, Role::Treasurer, 0).unwrap();

    vault.delegate_voting_power(SIGNER1, SIGNER2, 0, 0).unwrap();

    // Delegating back would close a cycle.
    let res = vault.delegate_voting_power(SIGNER2, SIGNER1, 0, 0);
    assert_eq!(res, Err(VaultError::CircularDelegation));
}

#[test]
fn test_delegation_max_depth() {
    let mut vault = VaultDAO::new();
    let config = delegation_config(vec![ADMIN, SIGNER1, SIGNER2, SIGNER3, SIGNER4], 2);
    vault.initialize(ADMIN, config, 0).unwrap();
    vault.set_role(ADMIN, SIGNER1, Role::Treasurer, 0).unwrap();
    vault.set_role(ADMIN, SIGNER2, Role::Treasurer, 0).unwrap();
    vault.set_role(ADMIN, SIGNER3, Role::Treasurer, 0).unwrap();
    vault.set_role(ADMIN, SIGNER4, Role::Treasurer, 0).unwrap();

    // Chain: signer 1 -> signer 2 -> signer 3 -> signer 4.
    vault.delegate_voting_power(SIGNER1, SIGNER2, 0, 0).unwrap();
    vault.delegate_voting_power(SIGNER2, SIGNER3, 0, 0).unwrap();
    vault.delegate_voting_power(SIGNER3, SIGNER4, 0, 0).unwrap();

    // Resolving from the head would need a third hop.
    let res = vault.get_effective_voter(SIGNER1, 0);
    assert_eq!(res, Err(VaultError::DelegationChainTooDeep));
}

#[test]
fn test_delegation_revocation() {
    let mut vault = VaultDAO::new();
    let config = delegation_config(vec![ADMIN, SIGNER1, SIGNER2], 2);
    vault.initialize(ADMIN, config, 0).unwrap();
    vault.set_role(ADMIN, SIGNER1, Role::Treasurer, 0).unwrap();
    vault.set_role(ADMIN, SIGNER2, Role::Treasurer, 0).unwrap();

    let delegation_id = vault.delegate_voting_power(SIGNER1, SIGNER2, 0, 0).unwrap();
    assert_eq!(vault.get_effective_voter(SIGNER1, 0).unwrap(), SIGNER2);

    vault.revoke_delegation(SIGNER1, delegation_id).unwrap();

    let delegation = vault.get_delegation(delegation_id).unwrap();
    assert!(!delegation.is_active);
    assert_eq!(vault.get_effective_voter(SIGNER1, 0).unwrap(), SIGNER1);
}

#[test]
fn test_delegation_with_proposal_approval() {
    let mut vault = VaultDAO::new();
    let config = delegation_config(vec![ADMIN, SIGNER1, SIGNER2, SIGNER3], 2);
    vault.initialize(ADMIN, config, 0).unwrap();
    vault.set_role(ADMIN, SIGNER1, Role::Treasurer, 0).unwrap();
    vault.set_role(ADMIN, SIGNER2, Role::Treasurer, 0).unwrap();
    vault.set_role(ADMIN, SIGNER3, Role::Treasurer, 0).unwrap();

    vault.delegate_voting_power(SIGNER1, SIGNER2, 0, 0).unwrap();

    let proposal_id = vault.propose_transfer(SIGNER3, USER, TOKEN, 100, MEMO, 0).unwrap();

    // Signer 1 votes, but the vote lands on signer 2 via the delegation.
    vault.approve_proposal(SIGNER1, proposal_id, 0).unwrap();
    let proposal = vault.get_proposal(proposal_id).unwrap();
    assert_eq!(proposal.approvals.len(), 1);
    assert_eq!(proposal.approvals[0], SIGNER2);

    // Signer 2 cannot vote again: their vote is already recorded.
    let res = vault.approve_proposal(SIGNER2, proposal_id, 0);
    assert_eq!(res, Err(VaultError::AlreadyApproved));

    // A third signer completes the threshold.
    vault.approve_proposal(SIGNER3, proposal_id, 0).unwrap();
    let proposal = vault.get_proposal(proposal_id).unwrap();
    assert_eq!(proposal.status, ProposalStatus::Approved);
}

#[test]
fn test_delegation_cannot_delegate_to_self() {
    let mut vault = VaultDAO::new();
    let config = delegation_config(vec![ADMIN, SIGNER1], 1);
    vault.initialize(ADMIN, config, 0).unwrap();
    vault.set_role(ADMIN, SIGNER1, Role::Treasurer, 0).unwrap();

    let res = vault.delegate_voting_power(SIGNER1, SIGNER1, 0, 0);
    assert_eq!(res, Err(VaultError::CannotDelegateToSelf));
}

#[test]
fn test_delegation_non_signer_cannot_delegate() {
    let mut vault = VaultDAO::new();
    let config = delegation_config(vec![ADMIN, SIGNER1], 1);
    vault.initialize(ADMIN, config, 0).unwrap();
    vault.set_role(ADMIN, SIGNER1, Role::Treasurer, 0).unwrap();

    let non_signer: u64 = 30;
    let res = vault.delegate_voting_power(non_signer, SIGNER1, 0, 0);
    assert_eq!(res, Err(VaultError::DelegatorNotSigner));
}

#[test]
fn test_delegation_cannot_delegate_to_non_signer() {
    let mut vault = VaultDAO::new();
    let config = delegation_config(vec![ADMIN, SIGNER1], 1);
    vault.initialize(ADMIN, config, 0).unwrap();
    vault.set_role(ADMIN, SIGNER1, Role::Treasurer, 0).unwrap();

    let non_signer: u64 = 30;
    let res = vault.delegate_voting_power(SIGNER1, non_signer, 0, 0);
    assert_eq!(res, Err(VaultError::DelegateNotSigner));
}

#[test]
fn test_delegation_already_exists() {
    let mut vault = VaultDAO::new();
    let config = delegation_config(vec![ADMIN, SIGNER1, SIGNER2, SIGNER3], 2);
    vault.initialize(ADMIN, config, 0).unwrap();
    vault.set_role(ADMIN, SIGNER1, Role::Treasurer, 0).unwrap();
    vault.set_role(ADMIN, SIGNER2, Role::Treasurer, 0).unwrap();
    vault.set_role(ADMIN, SIGNER3, Role::Treasurer, 0).unwrap();

    vault.delegate_voting_power(SIGNER1, SIGNER2, 0, 0).unwrap();

    let res = vault.delegate_voting_power(SIGNER1, SIGNER3, 0, 0);
    assert_eq!(res, Err(VaultError::DelegationAlreadyExists));
}

#[test]
fn abstention_blocks_a_later_approval_by_the_same_voter() {
    // Abstaining and then approving through a delegation landing on the
    // same effective voter is double voting too.
    let mut vault = VaultDAO::new();
    let config = delegation_config(vec![ADMIN, SIGNER1, SIGNER2], 2);
    vault.initialize(ADMIN, config, 0).unwrap();
    vault.set_role(ADMIN, SIGNER1, Role::Treasurer, 0).unwrap();
    vault.set_role(ADMIN, SIGNER2, Role::Treasurer, 0).unwrap();

    vault.delegate_voting_power(SIGNER1, SIGNER2, 0, 0).unwrap();
    let id = vault.propose_transfer(ADMIN, USER, TOKEN, 100, MEMO, 0).unwrap();

    vault.abstain_proposal(SIGNER2, id, 0).unwrap();
    assert_eq!(vault.approve_proposal(SIGNER1, id, 0), Err(VaultError::AlreadyApproved));
    assert_eq!(vault.get_proposal(id).unwrap().abstentions, vec![SIGNER2]);
    assert_eq!(vault.get_proposal(id).unwrap().approvals.len(), 0);
}

#[test]
fn revoking_someone_elses_delegation_is_refused() {
    let mut vault = VaultDAO::new();
    let config = delegation_config(vec![ADMIN, SIGNER1, SIGNER2], 2);
    vault.initialize(ADMIN, config, 0).unwrap();
    vault.set_role(ADMIN, SIGNER1, Role::Treasurer, 0).unwrap();
    vault.set_role(ADMIN, SIGNER2, Role::Treasurer, 0).unwrap();

    let delegation_id = vault.delegate_voting_power(SIGNER1, SIGNER2, 0, 0).unwrap();
    assert_eq!(vault.revoke_delegation(SIGNER2, delegation_id), Err(VaultError::Unauthorized));
    assert_eq!(vault.revoke_delegation(SIGNER1, 99), Err(VaultError::DelegationNotFound));
    assert!(vault.get_delegation(delegation_id).unwrap().is_active);
}
