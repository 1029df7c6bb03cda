use vaultdao::ExecutionOutcome;
use vaultdao::InitConfig;
use vaultdao::ProposalStatus;
use vaultdao::RetryConfig;
use vaultdao::Role;
use vaultdao::ThresholdStrategy;
use vaultdao::VaultDAO;
use vaultdao::VaultError;
use vaultdao::VelocityConfig;

const ADMIN: u64 = 1;
const SIGNER1: u64 = 2;
const SIGNER2: u64 = 3;
const USER: u64 = 10;
const TOKEN: u64 = 100;
const MEMO: u64 = 7;

fn gov_config(signers: Vec<u64>, threshold: u32) -> InitConfig {
    InitConfig {
        signers,
        threshold,
        quorum: 0,
        spending_limit: 1000,
        daily_limit: 5000,
        weekly_limit: 10000,
        timelock_threshold: 500,
        timelock_delay: 100,
        velocity_limit: VelocityConfig { limit: 100, window: 3600 },
        threshold_strategy: ThresholdStrategy::Fixed,
        default_voting_deadline: 0,
        retry_config: RetryConfig { enabled: false, max_retries: 0, initial_backoff_ledgers: 0 },
        expiration_period: 120_960,
        grace_period: 720,
    }
}

#[test]
fn test_multisig_approval() {
    let mut vault = VaultDAO::new();

    // Initialize with 2-of-3 multisig.
    let config = gov_config(vec![ADMIN, SIGNER1, SIGNER2], 2);
    vault.initialize(ADMIN, config, 0).unwrap();

    vault.set_role(ADMIN, SIGNER1, Role::Treasurer, 0).unwrap();
    vault.set_role(ADMIN, SIGNER2, Role::Treasurer, 0).unwrap();

    let proposal_id = vault.propose_transfer(SIGNER1, USER, TOKEN, 100, MEMO, 0).unwrap();

    // First approval: still pending.
    vault.approve_proposal(SIGNER1, proposal_id, 0).unwrap();
    let proposal = vault.get_proposal(proposal_id).unwrap();
    assert_eq!(proposal.status, ProposalStatus::Pending);

    // Second approval meets the threshold.
    vault.approve_proposal(SIGNER2, proposal_id, 0).unwrap();
    let proposal = vault.get_proposal(proposal_id).unwrap();
    assert_eq!(proposal.status, ProposalStatus::Approved);
    assert_eq!(proposal.unlock_ledger, 0); // Below the timelock threshold.
}

#[test]
fn test_unauthorized_proposal() {
    let mut vault = VaultDAO::new();
    let config = gov_config(vec![ADMIN], 1);
    vault.initialize(ADMIN, config, 0).unwrap();

    // A plain member tries to propose.
    let member: u64 = 20;
    let res = vault.propose_transfer(member, member, TOKEN, 100, MEMO, 0);
    assert_eq!(res, Err(VaultError::InsufficientRole));
}

#[test]
fn test_timelock_violation() {
    let mut vault = VaultDAO::new();
    let mut config = gov_config(vec![ADMIN, SIGNER1], 1);
    config.spending_limit = 2000;
    config.timelock_delay = 200;
    vault.initialize(ADMIN, config, 100).unwrap();
    vault.set_role(ADMIN, SIGNER1, Role::Treasurer, 100).unwrap();

    // A large transfer (600 >= 500) arms the time lock on approval.
    let proposal_id = vault.propose_transfer(SIGNER1, USER, TOKEN, 600, MEMO, 100).unwrap();
    vault.approve_proposal(SIGNER1, proposal_id, 100).unwrap();

    let proposal = vault.get_proposal(proposal_id).unwrap();
    assert_eq!(proposal.status, ProposalStatus::Approved);
    assert_eq!(proposal.unlock_ledger, 100 + 200);

    // Executing immediately hits the lock.
    let res = vault.execute_proposal(SIGNER1, proposal_id, 100, 0);
    assert_eq!(res, Err(VaultError::TimelockNotExpired));

    // Past the unlock ledger the lock no longer blocks; this attempt now
    // reaches the balance check instead.
    let res = vault.execute_proposal(SIGNER1, proposal_id, 301, 0);
    assert_ne!(res, Err(VaultError::TimelockNotExpired));
}

#[test]
fn timelock_boundaries_match_configuration() {
    // The scenario behind the time lock rule: threshold 500, delay 200,
    // amount 600 approved at ledger 100 unlocks at exactly 300.
    let mut vault = VaultDAO::new();
    let mut config = gov_config(vec![ADMIN, SIGNER1], 1);
    config.spending_limit = 2000;
    config.timelock_delay = 200;
    vault.initialize(ADMIN, config, 100).unwrap();
    vault.set_role(ADMIN, SIGNER1, Role::Treasurer, 100).unwrap();

    let id = vault.propose_transfer(SIGNER1, USER, TOKEN, 600, MEMO, 100).unwrap();
    vault.approve_proposal(SIGNER1, id, 100).unwrap();
    assert_eq!(vault.get_proposal(id).unwrap().unlock_ledger, 300);

    // At ledger 250 the lock still holds.
    assert_eq!(
        vault.execute_proposal(SIGNER1, id, 250, 10_000),
        Err(VaultError::TimelockNotExpired)
    );
    // At ledger 301 the lock has elapsed and the transfer goes through.
    assert_eq!(
        vault.execute_proposal(SIGNER1, id, 301, 10_000),
        Ok(ExecutionOutcome::Executed)
    );
    assert_eq!(vault.get_proposal(id).unwrap().status, ProposalStatus::Executed);
}

#[test]
fn over_limit_proposal_is_rejected_without_a_trace() {
    // spending_limit 1000: an amount of 1001 is refused at proposal time
    // and no proposal is created.
    let mut vault = VaultDAO::new();
    let config = gov_config(vec![ADMIN, SIGNER1], 1);
    vault.initialize(ADMIN, config, 0).unwrap();
    vault.set_role(ADMIN, SIGNER1, Role::Treasurer, 0).unwrap();

    let res = vault.propose_transfer(SIGNER1, USER, TOKEN, 1001, MEMO, 0);
    assert_eq!(res, Err(VaultError::ExceedsProposalLimit));
    assert_eq!(vault.get_proposal(1).err(), Some(VaultError::ProposalNotFound));
    assert_eq!(vault.get_today_spent(0), 0);
}

#[test]
fn threshold_without_quorum_approves_at_two_of_three() {
    // threshold 2, quorum 0, three signers: A approves (pending), B
    // approves (approved).
    let mut vault = VaultDAO::new();
    let config = gov_config(vec![ADMIN, SIGNER1, SIGNER2], 2);
    vault.initialize(ADMIN, config, 0).unwrap();
    vault.set_role(ADMIN, SIGNER1, Role::Treasurer, 0).unwrap();
    vault.set_role(ADMIN, SIGNER2, Role::Treasurer, 0).unwrap();

    let id = vault.propose_transfer(SIGNER1, USER, TOKEN, 100, MEMO, 0).unwrap();
    vault.approve_proposal(SIGNER1, id, 0).unwrap();
    assert_eq!(vault.get_proposal(id).unwrap().status, ProposalStatus::Pending);
    vault.approve_proposal(SIGNER2, id, 0).unwrap();
    assert_eq!(vault.get_proposal(id).unwrap().status, ProposalStatus::Approved);
}

#[test]
fn quorum_and_threshold_must_both_hold() {
    // threshold 1 with quorum 2: one approval meets the threshold but not
    // the quorum, so the proposal stays pending; an abstention completes
    // the quorum and only then does it become approved.
    let mut vault = VaultDAO::new();
    let mut config = gov_config(vec![ADMIN, SIGNER1, SIGNER2], 1);
    config.quorum = 2;
    vault.initialize(ADMIN, config, 0).unwrap();
    vault.set_role(ADMIN, SIGNER1, Role::Treasurer, 0).unwrap();
    vault.set_role(ADMIN, SIGNER2, Role::Treasurer, 0).unwrap();

    let id = vault.propose_transfer(SIGNER1, USER, TOKEN, 100, MEMO, 0).unwrap();
    vault.approve_proposal(SIGNER1, id, 0).unwrap();
    assert_eq!(vault.get_proposal(id).unwrap().status, ProposalStatus::Pending);
    let (votes, required, reached) = vault.get_quorum_status(id).unwrap();
    assert_eq!((votes, required, reached), (1, 2, false));

    vault.abstain_proposal(SIGNER2, id, 0).unwrap();
    let (votes, required, reached) = vault.get_quorum_status(id).unwrap();
    assert_eq!((votes, required, reached), (2, 2, true));
    assert_eq!(vault.get_proposal(id).unwrap().status, ProposalStatus::Approved);
    // The abstention counted toward the quorum, never toward approvals.
    assert_eq!(vault.get_proposal(id).unwrap().approvals, vec![SIGNER1]);
    assert_eq!(vault.get_proposal(id).unwrap().abstentions, vec![SIGNER2]);
}

#[test]
fn terminal_statuses_admit_no_further_transition() {
    let mut vault = VaultDAO::new();
    let config = gov_config(vec![ADMIN, SIGNER1, SIGNER2], 2);
    vault.initialize(ADMIN, config, 0).unwrap();
    vault.set_role(ADMIN, SIGNER1, Role::Treasurer, 0).unwrap();
    vault.set_role(ADMIN, SIGNER2, Role::Treasurer, 0).unwrap();

    // A rejected proposal stays rejected.
    let id = vault.propose_transfer(SIGNER1, USER, TOKEN, 100, MEMO, 0).unwrap();
    vault.reject_proposal(ADMIN, id, 0).unwrap();
    assert_eq!(vault.get_proposal(id).unwrap().status, ProposalStatus::Rejected);
    assert_eq!(vault.approve_proposal(SIGNER2, id, 0), Err(VaultError::ProposalNotPending));
    assert_eq!(vault.cancel_proposal(SIGNER1, id, MEMO, 0), Err(VaultError::ProposalNotPending));
    assert_eq!(vault.reject_proposal(ADMIN, id, 0), Err(VaultError::ProposalNotPending));
    assert_eq!(vault.execute_proposal(ADMIN, id, 0, 10_000), Err(VaultError::ProposalNotApproved));
    assert_eq!(vault.get_proposal(id).unwrap().status, ProposalStatus::Rejected);

    // A cancelled proposal stays cancelled.
    let id2 = vault.propose_transfer(SIGNER1, USER, TOKEN, 100, MEMO, 0).unwrap();
    vault.cancel_proposal(SIGNER1, id2, MEMO, 0).unwrap();
    assert_eq!(vault.get_proposal(id2).unwrap().status, ProposalStatus::Cancelled);
    assert_eq!(
        vault.cancel_proposal(SIGNER1, id2, MEMO, 0),
        Err(VaultError::ProposalAlreadyCancelled)
    );
    assert_eq!(vault.approve_proposal(SIGNER1, id2, 0), Err(VaultError::ProposalNotPending));
    assert_eq!(vault.get_proposal(id2).unwrap().status, ProposalStatus::Cancelled);

    // An executed proposal stays executed.
    let id3 = vault.propose_transfer(SIGNER1, USER, TOKEN, 100, MEMO, 0).unwrap();
    vault.approve_proposal(SIGNER1, id3, 0).unwrap();
    vault.approve_proposal(SIGNER2, id3, 0).unwrap();
    assert_eq!(vault.execute_proposal(ADMIN, id3, 0, 10_000), Ok(ExecutionOutcome::Executed));
    assert_eq!(
        vault.execute_proposal(ADMIN, id3, 0, 10_000),
        Err(VaultError::ProposalAlreadyExecuted)
    );
    assert_eq!(vault.get_proposal(id3).unwrap().status, ProposalStatus::Executed);
}

#[test]
fn recipient_lists_gate_proposals() {
    let mut vault = VaultDAO::new();
    let config = gov_config(vec![ADMIN, SIGNER1], 1);
    vault.initialize(ADMIN, config, 0).unwrap();
    vault.set_role(ADMIN, SIGNER1, Role::Treasurer, 0).unwrap();

    // Whitelist mode: only listed recipients pass.
    vault.set_list_mode(ADMIN, vaultdao::ListMode::Whitelist).unwrap();
    assert_eq!(
        vault.propose_transfer(SIGNER1, USER, TOKEN, 100, MEMO, 0),
        Err(VaultError::RecipientNotWhitelisted)
    );
    vault.add_to_whitelist(ADMIN, USER).unwrap();
    assert!(vault.is_whitelisted(USER));
    assert_eq!(
        vault.add_to_whitelist(ADMIN, USER),
        Err(VaultError::AddressAlreadyOnList)
    );
    assert!(vault.propose_transfer(SIGNER1, USER, TOKEN, 100, MEMO, 0).is_ok());
    vault.remove_from_whitelist(ADMIN, USER).unwrap();
    assert_eq!(
        vault.remove_from_whitelist(ADMIN, USER),
        Err(VaultError::AddressNotOnList)
    );

    // Blacklist mode: listed recipients are blocked.
    vault.set_list_mode(ADMIN, vaultdao::ListMode::Blacklist).unwrap();
    vault.add_to_blacklist(ADMIN, USER).unwrap();
    assert!(vault.is_blacklisted(USER));
    assert_eq!(
        vault.propose_transfer(SIGNER1, USER, TOKEN, 100, MEMO, 0),
        Err(VaultError::RecipientBlacklisted)
    );
    vault.remove_from_blacklist(ADMIN, USER).unwrap();
    assert!(vault.propose_transfer(SIGNER1, USER, TOKEN, 100, MEMO, 0).is_ok());
}

#[test]
fn signer_set_changes_are_validated() {
    let mut vault = VaultDAO::new();
    let config = gov_config(vec![ADMIN, SIGNER1], 2);
    vault.initialize(ADMIN, config, 0).unwrap();

    assert_eq!(vault.add_signer(ADMIN, SIGNER1, 0), Err(VaultError::SignerAlreadyExists));
    vault.add_signer(ADMIN, SIGNER2, 0).unwrap();
    assert_eq!(vault.is_signer(SIGNER2), Ok(true));

    // Removing below the threshold is refused.
    vault.remove_signer(ADMIN, SIGNER2, 0).unwrap();
    assert_eq!(vault.remove_signer(ADMIN, SIGNER1, 0), Err(VaultError::CannotRemoveSigner));
    assert_eq!(vault.remove_signer(ADMIN, USER, 0), Err(VaultError::SignerNotFound));

    // Threshold and quorum updates are re-validated against the live set.
    assert_eq!(vault.update_threshold(ADMIN, 3, 0), Err(VaultError::ThresholdTooHigh));
    assert_eq!(vault.update_threshold(ADMIN, 0, 0), Err(VaultError::ThresholdTooLow));
    vault.update_threshold(ADMIN, 1, 0).unwrap();
    assert_eq!(vault.update_quorum(ADMIN, 3), Err(VaultError::QuorumTooHigh));
    vault.update_quorum(ADMIN, 2).unwrap();

    // Only admins manage the vault.
    assert_eq!(vault.add_signer(SIGNER1, USER, 0), Err(VaultError::Unauthorized));
    assert_eq!(vault.update_limits(SIGNER1, 10, 10, 0), Err(VaultError::Unauthorized));
}

#[test]
fn initialization_is_validated_and_runs_once() {
    let mut vault = VaultDAO::new();

    assert_eq!(
        vault.initialize(ADMIN, gov_config(vec![], 1), 0),
        Err(VaultError::NoSigners)
    );
    assert_eq!(
        vault.initialize(ADMIN, gov_config(vec![ADMIN], 0), 0),
        Err(VaultError::ThresholdTooLow)
    );
    assert_eq!(
        vault.initialize(ADMIN, gov_config(vec![ADMIN], 2), 0),
        Err(VaultError::ThresholdTooHigh)
    );
    let mut bad_quorum = gov_config(vec![ADMIN], 1);
    bad_quorum.quorum = 2;
    assert_eq!(vault.initialize(ADMIN, bad_quorum, 0), Err(VaultError::QuorumTooHigh));
    let mut bad_limit = gov_config(vec![ADMIN], 1);
    bad_limit.spending_limit = 0;
    assert_eq!(vault.initialize(ADMIN, bad_limit, 0), Err(VaultError::InvalidAmount));

    assert_eq!(vault.is_signer(ADMIN), Err(VaultError::NotInitialized));
    vault.initialize(ADMIN, gov_config(vec![ADMIN], 1), 0).unwrap();
    assert_eq!(vault.get_role(ADMIN), Role::Admin);
    assert_eq!(
        vault.initialize(ADMIN, gov_config(vec![ADMIN], 1), 0),
        Err(VaultError::AlreadyInitialized)
    );
}

#[test]
fn voting_rights_are_frozen_in_the_snapshot() {
    // Votes are validated against the signer set frozen at creation, so a
    // later signer-set change cannot inflate or invalidate votes.
    let mut vault = VaultDAO::new();
    let config = gov_config(vec![ADMIN, SIGNER1], 2);
    vault.initialize(ADMIN, config, 0).unwrap();
    vault.set_role(ADMIN, SIGNER1, Role::Treasurer, 0).unwrap();

    let id = vault.propose_transfer(SIGNER1, USER, TOKEN, 100, MEMO, 0).unwrap();

    // A signer added afterwards is not in the snapshot.
    vault.add_signer(ADMIN, SIGNER2, 0).unwrap();
    vault.set_role(ADMIN, SIGNER2, Role::Treasurer, 0).unwrap();
    assert_eq!(vault.approve_proposal(SIGNER2, id, 0), Err(VaultError::VoterNotInSnapshot));

    // On a proposal created after the change, the new signer votes.
    let id2 = vault.propose_transfer(SIGNER1, USER, TOKEN, 100, MEMO, 0).unwrap();
    vault.approve_proposal(SIGNER2, id2, 0).unwrap();

    // And a removed signer keeps their right to vote on the old snapshot.
    vault.update_threshold(ADMIN, 1, 0).unwrap();
    vault.remove_signer(ADMIN, SIGNER1, 0).unwrap();
    vault.approve_proposal(SIGNER1, id2, 0).unwrap();
    assert_eq!(vault.get_proposal(id2).unwrap().status, ProposalStatus::Approved);
}

#[test]
fn executable_proposals_are_listed() {
    let mut vault = VaultDAO::new();
    let mut config = gov_config(vec![ADMIN, SIGNER1], 1);
    config.spending_limit = 2000;
    config.timelock_delay = 200;
    vault.initialize(ADMIN, config, 100).unwrap();
    vault.set_role(ADMIN, SIGNER1, Role::Treasurer, 100).unwrap();

    // One approved and unlocked, one approved but locked, one pending.
    let free = vault.propose_transfer(SIGNER1, USER, TOKEN, 100, MEMO, 100).unwrap();
    vault.approve_proposal(SIGNER1, free, 100).unwrap();
    let locked = vault.propose_transfer(SIGNER1, USER, TOKEN, 600, MEMO, 100).unwrap();
    vault.approve_proposal(SIGNER1, locked, 100).unwrap();
    let pending = vault.propose_transfer(SIGNER1, USER, TOKEN, 100, MEMO, 100).unwrap();

    let ready = vault.get_executable_proposals(150);
    assert!(ready.contains(&free));
    assert!(!ready.contains(&locked));
    assert!(!ready.contains(&pending));

    // Once the lock elapses, the locked one joins.
    let ready = vault.get_executable_proposals(301);
    assert!(ready.contains(&free) && ready.contains(&locked));
}
