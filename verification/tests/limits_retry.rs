use vaultdao::Condition;
use vaultdao::ConditionLogic;
use vaultdao::ExecutionOutcome;
use vaultdao::InitConfig;
use vaultdao::ProposalStatus;
use vaultdao::RetryConfig;
use vaultdao::Role;
use vaultdao::ThresholdStrategy;
use vaultdao::VaultDAO;
use vaultdao::VaultError;
use vaultdao::VelocityConfig;

const ADMIN: u64 = 1;
const SIGNER1: u64 = 2;
const USER: u64 = 10;
const TOKEN: u64 = 100;
const MEMO: u64 = 7;

fn limits_config() -> InitConfig {
    InitConfig {
        signers: vec![ADMIN, SIGNER1],
        threshold: 1,
        quorum: 0,
        spending_limit: 1000,
        daily_limit: 5000,
        weekly_limit: 10000,
        timelock_threshold: 5000,
        timelock_delay: 100,
        velocity_limit: VelocityConfig { limit: 100, window: 3600 },
        threshold_strategy: ThresholdStrategy::Fixed,
        default_voting_deadline: 0,
        retry_config: RetryConfig { enabled: false, max_retries: 0, initial_backoff_ledgers: 0 },
        expiration_period: 120_960,
        grace_period: 720,
    }
}

fn limits_vault(config: InitConfig) -> VaultDAO {
    let mut vault = VaultDAO::new();
    vault.initialize(ADMIN, config, 0).unwrap();
    vault.set_role(ADMIN, SIGNER1, Role::Treasurer, 0).unwrap();
    vault
}

#[test]
fn spending_is_reserved_at_proposal_time() {
    let mut vault = limits_vault(limits_config());

    vault.propose_transfer(SIGNER1, USER, TOKEN, 800, MEMO, 0).unwrap();
    assert_eq!(vault.get_today_spent(0), 800);
    assert_eq!(vault.get_weekly_spent(0), 800);

    // Two more of 800 fit under the daily 5000; the fourth large one at
    // 1000 does not (2400 + 1000 <= 5000 would pass, so push to the edge).
    vault.propose_transfer(SIGNER1, USER, TOKEN, 1000, MEMO, 0).unwrap();
    vault.propose_transfer(SIGNER1, USER, TOKEN, 1000, MEMO, 0).unwrap();
    vault.propose_transfer(SIGNER1, USER, TOKEN, 1000, MEMO, 0).unwrap();
    vault.propose_transfer(SIGNER1, USER, TOKEN, 1000, MEMO, 0).unwrap();
    assert_eq!(vault.get_today_spent(0), 4800);
    assert_eq!(
        vault.propose_transfer(SIGNER1, USER, TOKEN, 300, MEMO, 0),
        Err(VaultError::ExceedsDailyLimit)
    );

    // A new day starts a fresh bucket, but the week still accumulates.
    let next_day: u64 = 86_400;
    vault.propose_transfer(SIGNER1, USER, TOKEN, 1000, MEMO, next_day).unwrap();
    assert_eq!(vault.get_today_spent(next_day), 1000);
    assert_eq!(vault.get_weekly_spent(0), 5800);
}

#[test]
fn weekly_limit_is_enforced_independently() {
    let mut config = limits_config();
    config.daily_limit = 10_000;
    config.weekly_limit = 1500;
    let mut vault = limits_vault(config);

    vault.propose_transfer(SIGNER1, USER, TOKEN, 1000, MEMO, 0).unwrap();
    assert_eq!(
        vault.propose_transfer(SIGNER1, USER, TOKEN, 1000, MEMO, 0),
        Err(VaultError::ExceedsWeeklyLimit)
    );
}

#[test]
fn non_positive_amounts_are_invalid() {
    let mut vault = limits_vault(limits_config());
    assert_eq!(
        vault.propose_transfer(SIGNER1, USER, TOKEN, 0, MEMO, 0),
        Err(VaultError::InvalidAmount)
    );
    assert_eq!(
        vault.propose_transfer(SIGNER1, USER, TOKEN, -5, MEMO, 0),
        Err(VaultError::InvalidAmount)
    );
}

#[test]
fn velocity_window_limits_actions() {
    let mut config = limits_config();
    config.velocity_limit = VelocityConfig { limit: 1, window: 3600 };
    let mut vault = limits_vault(config);

    vault.propose_transfer(SIGNER1, USER, TOKEN, 100, MEMO, 1000).unwrap();
    assert_eq!(
        vault.propose_transfer(SIGNER1, USER, TOKEN, 100, MEMO, 1001),
        Err(VaultError::VelocityLimitExceeded)
    );
    // Another signer is not affected.
    vault.propose_transfer(ADMIN, USER, TOKEN, 100, MEMO, 1001).unwrap();
    // The window is inclusive: an action at exactly its lower edge still
    // counts, so at ledger 4600 the action from 1000 still blocks.
    assert_eq!(
        vault.propose_transfer(SIGNER1, USER, TOKEN, 100, MEMO, 4600),
        Err(VaultError::VelocityLimitExceeded)
    );
    // One ledger later it has aged out and room opens again.
    vault.propose_transfer(SIGNER1, USER, TOKEN, 100, MEMO, 4601).unwrap();
}

#[test]
fn cancellation_refunds_both_counters_and_rejection_does_not() {
    let mut vault = limits_vault(limits_config());

    // Two proposals reserve 800 + 400.
    let cancel_me = vault.propose_transfer(SIGNER1, USER, TOKEN, 800, MEMO, 0).unwrap();
    let reject_me = vault.propose_transfer(SIGNER1, USER, TOKEN, 400, MEMO, 0).unwrap();
    assert_eq!(vault.get_today_spent(0), 1200);
    assert_eq!(vault.get_weekly_spent(0), 1200);

    // Cancelling refunds exactly the proposal's amount to both counters.
    vault.cancel_proposal(SIGNER1, cancel_me, MEMO, 0).unwrap();
    assert_eq!(vault.get_today_spent(0), 400);
    assert_eq!(vault.get_weekly_spent(0), 400);
    let record = vault.get_cancellation_record(cancel_me).unwrap();
    assert_eq!(record.cancelled_by, SIGNER1);
    assert_eq!(record.refunded_amount, 800);
    assert_eq!(vault.get_cancellation_history(), vec![cancel_me]);

    // Rejecting refunds nothing: failed proposals cost capacity.
    vault.reject_proposal(ADMIN, reject_me, 0).unwrap();
    assert_eq!(vault.get_today_spent(0), 400);
    assert_eq!(vault.get_weekly_spent(0), 400);

    // The refund floors at zero even when the counter has moved on: a
    // cancellation on a later day refunds into that day's (empty) bucket.
    let late = vault.propose_transfer(SIGNER1, USER, TOKEN, 500, MEMO, 0).unwrap();
    let next_day: u64 = 86_400;
    vault.cancel_proposal(SIGNER1, late, MEMO, next_day).unwrap();
    assert_eq!(vault.get_daily_spent(next_day / 86_400), 0);
}

#[test]
fn retry_backoff_doubles_and_then_exhausts() {
    // retry policy: enabled, 3 attempts, initial backoff 10 ledgers.
    let mut config = limits_config();
    config.retry_config = RetryConfig {
        enabled: true,
        max_retries: 3,
        initial_backoff_ledgers: 10,
    };
    let mut vault = limits_vault(config);

    let id = vault.propose_transfer(SIGNER1, USER, TOKEN, 500, MEMO, 0).unwrap();
    vault.approve_proposal(SIGNER1, id, 0).unwrap();

    // First transient failure (balance short): retry armed at now + 10.
    assert_eq!(
        vault.execute_proposal(SIGNER1, id, 1000, 0),
        Ok(ExecutionOutcome::RetryScheduled)
    );
    let rs = vault.get_retry_state(id).unwrap();
    assert_eq!((rs.retry_count, rs.next_retry_ledger), (1, 1010));
    assert_eq!(vault.get_proposal(id).unwrap().status, ProposalStatus::Approved);

    // Attempting before the backoff elapses is refused.
    assert_eq!(vault.execute_proposal(SIGNER1, id, 1005, 0), Err(VaultError::RetryError));

    // Second failure: now + 20. Third: now + 40.
    assert_eq!(
        vault.execute_proposal(SIGNER1, id, 1010, 0),
        Ok(ExecutionOutcome::RetryScheduled)
    );
    let rs = vault.get_retry_state(id).unwrap();
    assert_eq!((rs.retry_count, rs.next_retry_ledger), (2, 1030));
    assert_eq!(
        vault.execute_proposal(SIGNER1, id, 1030, 0),
        Ok(ExecutionOutcome::RetryScheduled)
    );
    let rs = vault.get_retry_state(id).unwrap();
    assert_eq!((rs.retry_count, rs.next_retry_ledger), (3, 1070));

    // A fourth failure is rejected as exhausted.
    assert_eq!(vault.execute_proposal(SIGNER1, id, 1070, 0), Err(VaultError::RetryError));
    assert_eq!(vault.retry_execution(SIGNER1, id, 1070, 0), Err(VaultError::RetryError));
}

#[test]
fn retry_disabled_reports_the_transient_error() {
    let mut vault = limits_vault(limits_config());

    let id = vault.propose_transfer(SIGNER1, USER, TOKEN, 500, MEMO, 0).unwrap();
    vault.approve_proposal(SIGNER1, id, 0).unwrap();

    // Without the retry policy a short balance is a plain failure, and
    // nothing is recorded.
    assert_eq!(vault.execute_proposal(SIGNER1, id, 0, 499), Err(VaultError::InsufficientBalance));
    assert!(vault.get_retry_state(id).is_none());
    assert_eq!(vault.retry_execution(SIGNER1, id, 0, 10_000), Err(VaultError::RetryError));

    // With enough balance the execution goes through.
    assert_eq!(vault.execute_proposal(SIGNER1, id, 0, 500), Ok(ExecutionOutcome::Executed));
}

#[test]
fn retry_execution_reattempts_after_backoff() {
    let mut config = limits_config();
    config.retry_config = RetryConfig {
        enabled: true,
        max_retries: 3,
        initial_backoff_ledgers: 10,
    };
    let mut vault = limits_vault(config);

    let id = vault.propose_transfer(SIGNER1, USER, TOKEN, 500, MEMO, 0).unwrap();
    vault.approve_proposal(SIGNER1, id, 0).unwrap();
    assert_eq!(
        vault.execute_proposal(SIGNER1, id, 1000, 0),
        Ok(ExecutionOutcome::RetryScheduled)
    );

    // The explicit retry entry point enforces the same backoff...
    assert_eq!(vault.retry_execution(SIGNER1, id, 1005, 10_000), Err(VaultError::RetryError));
    // ...and succeeds once it has elapsed and the balance covers it.
    assert_eq!(
        vault.retry_execution(SIGNER1, id, 1010, 10_000),
        Ok(ExecutionOutcome::Executed)
    );
    assert_eq!(vault.get_proposal(id).unwrap().status, ProposalStatus::Executed);
}

#[test]
fn conditions_gate_execution_and_count_as_transient() {
    let mut vault = limits_vault(limits_config());

    // Execute only after ledger 200 and while the balance stays above 600.
    let id = vault
        .propose_transfer_with_conditions(
            SIGNER1,
            USER,
            TOKEN,
            500,
            MEMO,
            vec![Condition::DateAfter(200), Condition::BalanceAbove(600)],
            ConditionLogic::And,
            100,
        )
        .unwrap();
    vault.approve_proposal(SIGNER1, id, 100).unwrap();

    // Too early: the date condition fails, a transient error.
    assert_eq!(
        vault.execute_proposal(SIGNER1, id, 150, 10_000),
        Err(VaultError::ConditionsNotMet)
    );
    // Late enough but the balance condition fails.
    assert_eq!(
        vault.execute_proposal(SIGNER1, id, 201, 600),
        Err(VaultError::ConditionsNotMet)
    );
    // Both hold: executed.
    assert_eq!(
        vault.execute_proposal(SIGNER1, id, 201, 601),
        Ok(ExecutionOutcome::Executed)
    );
}

#[test]
fn or_conditions_need_only_one_to_hold() {
    let mut vault = limits_vault(limits_config());

    let id = vault
        .propose_transfer_with_conditions(
            SIGNER1,
            USER,
            TOKEN,
            500,
            MEMO,
            vec![Condition::DateBefore(50), Condition::BalanceAbove(600)],
            ConditionLogic::Or,
            100,
        )
        .unwrap();
    vault.approve_proposal(SIGNER1, id, 100).unwrap();

    // Past the date window and the balance too low: neither holds.
    assert_eq!(
        vault.execute_proposal(SIGNER1, id, 100, 550),
        Err(VaultError::ConditionsNotMet)
    );
    // The balance branch alone suffices.
    assert_eq!(
        vault.execute_proposal(SIGNER1, id, 100, 700),
        Ok(ExecutionOutcome::Executed)
    );
}
