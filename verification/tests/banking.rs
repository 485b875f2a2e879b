use blackjack::banking::{
    calculate_rewards, calculate_rewards_callback, check_balance, check_balance_callback,
    initialize_accounts_callback, initialize_user_account, process_payment,
    process_payment_callback, AccountState, InitializeAccountsOutput, ProcessPaymentOutput,
    TransactionStatus, UserAccount,
};
use blackjack::protocol::{
    Argument, CipherPayload, ComputationKind, ComputationOutputs, ErrorCode,
};

const PAYER: [u8; 32] = [7u8; 32];
const CLIENT_KEY: [u8; 32] = [9u8; 32];

fn cipher(fill: u8, nonce: u128) -> CipherPayload {
    CipherPayload { encryption_key: CLIENT_KEY, nonce, ciphertext: [fill; 32] }
}

fn active_account(id: u64) -> UserAccount {
    let (mut account, _) = initialize_user_account(id, PAYER, 1000, 11, CLIENT_KEY, 22, 100 + id);
    let output = ComputationOutputs::Success(InitializeAccountsOutput {
        mxe_balance: cipher(1, 33),
        client_balance: cipher(2, 44),
    });
    initialize_accounts_callback(&mut account, 100 + id, output).unwrap();
    account
}

#[test]
fn new_account_starts_initializing_with_queued_computation() {
    let (account, request) = initialize_user_account(1, PAYER, 1000, 11, CLIENT_KEY, 22, 5);
    assert_eq!(account.account_id, 1);
    assert_eq!(account.owner_pubkey, PAYER);
    assert_eq!(account.encrypted_balance, [0u8; 32]);
    assert_eq!(account.balance_nonce, 0);
    assert_eq!(account.transaction_count, 0);
    assert_eq!(account.reward_points, 0);
    assert_eq!(account.account_state, AccountState::Initializing);
    assert_eq!(account.pending_computation, Some(5));
    assert_eq!(request.computation_offset, 5);
    assert_eq!(request.kind, ComputationKind::InitializeAccounts);
    assert_eq!(
        request.args,
        vec![
            Argument::PlaintextU64(1000),
            Argument::PlaintextU128(11),
            Argument::EncryptionPubkey(CLIENT_KEY),
            Argument::PlaintextU128(22),
            Argument::EncryptionPubkey(CLIENT_KEY),
            Argument::PlaintextU128(22),
        ]
    );
}

#[test]
fn initialization_callback_activates_the_account() {
    let (mut account, _) = initialize_user_account(1, PAYER, 1000, 11, CLIENT_KEY, 22, 5);
    let output = ComputationOutputs::Success(InitializeAccountsOutput {
        mxe_balance: cipher(1, 33),
        client_balance: cipher(2, 44),
    });
    let event = initialize_accounts_callback(&mut account, 5, output).unwrap();
    assert_eq!(account.account_state, AccountState::Active);
    assert_eq!(account.encrypted_balance, [2u8; 32]);
    assert_eq!(account.balance_nonce, 44);
    assert_eq!(account.pending_computation, None);
    assert_eq!(event.account_id, 1);
    assert_eq!(event.owner, PAYER);
    assert_eq!(event.balance_nonce, 44);
}

#[test]
fn initialization_abort_leaves_the_account_provisional() {
    let (mut account, _) = initialize_user_account(1, PAYER, 1000, 11, CLIENT_KEY, 22, 5);
    let r = initialize_accounts_callback(&mut account, 5, ComputationOutputs::Aborted);
    assert_eq!(r.unwrap_err(), ErrorCode::AbortedComputation);
    assert_eq!(account.account_state, AccountState::Initializing);
    assert_eq!(account.encrypted_balance, [0u8; 32]);
    assert_eq!(account.pending_computation, None);
}

#[test]
fn duplicate_initialization_callback_is_rejected_unprocessed() {
    let (mut account, _) = initialize_user_account(1, PAYER, 1000, 11, CLIENT_KEY, 22, 5);
    let output = ComputationOutputs::Success(InitializeAccountsOutput {
        mxe_balance: cipher(1, 33),
        client_balance: cipher(2, 44),
    });
    initialize_accounts_callback(&mut account, 5, output).unwrap();
    let second = ComputationOutputs::Success(InitializeAccountsOutput {
        mxe_balance: cipher(3, 55),
        client_balance: cipher(4, 66),
    });
    let before = account;
    let r = initialize_accounts_callback(&mut account, 5, second);
    assert_eq!(r.unwrap_err(), ErrorCode::StaleCallback);
    assert_eq!(account.encrypted_balance, before.encrypted_balance);
    assert_eq!(account.balance_nonce, before.balance_nonce);
    assert_eq!(account.account_state, before.account_state);
}

#[test]
fn callback_with_unissued_offset_is_rejected() {
    let (mut account, _) = initialize_user_account(1, PAYER, 1000, 11, CLIENT_KEY, 22, 5);
    let output = ComputationOutputs::Success(InitializeAccountsOutput {
        mxe_balance: cipher(1, 33),
        client_balance: cipher(2, 44),
    });
    let r = initialize_accounts_callback(&mut account, 6, output);
    assert_eq!(r.unwrap_err(), ErrorCode::StaleCallback);
    assert_eq!(account.account_state, AccountState::Initializing);
    assert_eq!(account.pending_computation, Some(5));
}

#[test]
fn payment_requires_both_accounts_active() {
    let (sender, _) = initialize_user_account(1, PAYER, 1000, 11, CLIENT_KEY, 22, 5);
    let receiver = active_account(2);
    let r = process_payment(&sender, &receiver, 9, 77, 300, 55, 1234);
    assert_eq!(r.unwrap_err(), ErrorCode::InvalidAccountState);
    let sender = active_account(1);
    let (initializing_receiver, _) = initialize_user_account(2, PAYER, 0, 11, CLIENT_KEY, 22, 6);
    let r = process_payment(&sender, &initializing_receiver, 9, 77, 300, 55, 1234);
    assert_eq!(r.unwrap_err(), ErrorCode::InvalidAccountState);
}

#[test]
fn payment_creates_a_processing_transaction_and_queues_the_circuit() {
    let sender = active_account(1);
    let receiver = active_account(2);
    let (transaction, request) =
        process_payment(&sender, &receiver, 9, 77, 300, 55, 1234).unwrap();
    assert_eq!(transaction.transaction_id, 77);
    assert_eq!(transaction.sender, 1);
    assert_eq!(transaction.receiver, 2);
    assert_eq!(transaction.encrypted_amount, [0u8; 32]);
    assert_eq!(transaction.amount_nonce, 0);
    assert_eq!(transaction.timestamp, 1234);
    assert_eq!(transaction.status, TransactionStatus::Processing);
    assert_eq!(transaction.pending_computation, Some(9));
    assert_eq!(request.computation_offset, 9);
    assert_eq!(request.kind, ComputationKind::ProcessPayment);
    assert_eq!(
        request.args,
        vec![
            Argument::PlaintextU128(44),
            Argument::AccountRef { record: 1, byte_offset: 48, byte_len: 32 },
            Argument::PlaintextU128(44),
            Argument::AccountRef { record: 2, byte_offset: 48, byte_len: 32 },
            Argument::PlaintextU64(300),
            Argument::EncryptionPubkey(CLIENT_KEY),
            Argument::PlaintextU128(55),
        ]
    );
}

#[test]
fn payment_callback_completes_on_sufficient_balance() {
    let sender = active_account(1);
    let receiver = active_account(2);
    let (mut transaction, _) =
        process_payment(&sender, &receiver, 9, 77, 300, 55, 1234).unwrap();
    let output = ComputationOutputs::Success(ProcessPaymentOutput {
        sender_balance: cipher(1, 1),
        receiver_balance: cipher(2, 2),
        is_sufficient: true,
    });
    let event = process_payment_callback(&mut transaction, 9, output).unwrap();
    assert_eq!(transaction.status, TransactionStatus::Completed);
    assert_eq!(transaction.pending_computation, None);
    assert_eq!(event.transaction_id, 77);
    assert_eq!(event.sender, 1);
    assert_eq!(event.receiver, 2);
    assert_eq!(event.timestamp, 1234);
}

#[test]
fn payment_callback_fails_the_transaction_on_insufficient_balance() {
    let sender = active_account(1);
    let receiver = active_account(2);
    let (mut transaction, _) =
        process_payment(&sender, &receiver, 9, 77, 300, 55, 1234).unwrap();
    let output = ComputationOutputs::Success(ProcessPaymentOutput {
        sender_balance: cipher(1, 1),
        receiver_balance: cipher(2, 2),
        is_sufficient: false,
    });
    let r = process_payment_callback(&mut transaction, 9, output);
    assert_eq!(r.unwrap_err(), ErrorCode::InsufficientBalance);
    assert_eq!(transaction.status, TransactionStatus::Failed);
    assert_eq!(transaction.pending_computation, None);
}

#[test]
fn payment_callback_abort_keeps_the_transaction_processing() {
    let sender = active_account(1);
    let receiver = active_account(2);
    let (mut transaction, _) =
        process_payment(&sender, &receiver, 9, 77, 300, 55, 1234).unwrap();
    let r = process_payment_callback(&mut transaction, 9, ComputationOutputs::Aborted);
    assert_eq!(r.unwrap_err(), ErrorCode::AbortedComputation);
    assert_eq!(transaction.status, TransactionStatus::Processing);
    assert_eq!(transaction.pending_computation, None);
}

#[test]
fn duplicate_payment_callback_is_not_reapplied() {
    let sender = active_account(1);
    let receiver = active_account(2);
    let (mut transaction, _) =
        process_payment(&sender, &receiver, 9, 77, 300, 55, 1234).unwrap();
    let output = ComputationOutputs::Success(ProcessPaymentOutput {
        sender_balance: cipher(1, 1),
        receiver_balance: cipher(2, 2),
        is_sufficient: true,
    });
    process_payment_callback(&mut transaction, 9, output).unwrap();
    let contradicting = ComputationOutputs::Success(ProcessPaymentOutput {
        sender_balance: cipher(1, 1),
        receiver_balance: cipher(2, 2),
        is_sufficient: false,
    });
    let r = process_payment_callback(&mut transaction, 9, contradicting);
    assert_eq!(r.unwrap_err(), ErrorCode::StaleCallback);
    assert_eq!(transaction.status, TransactionStatus::Completed);
}

#[test]
fn balance_check_requires_an_active_account() {
    let (mut account, _) = initialize_user_account(1, PAYER, 1000, 11, CLIENT_KEY, 22, 5);
    let before = account;
    let r = check_balance(&mut account, 8, 5000);
    assert_eq!(r.unwrap_err(), ErrorCode::InvalidAccountState);
    assert_eq!(account.account_state, before.account_state);
    assert_eq!(account.pending_computation, before.pending_computation);
}

#[test]
fn balance_check_rejects_a_second_outstanding_computation() {
    let mut account = active_account(1);
    check_balance(&mut account, 8, 5000).unwrap();
    let r = check_balance(&mut account, 9, 5000);
    assert_eq!(r.unwrap_err(), ErrorCode::ComputationPending);
    assert_eq!(account.pending_computation, Some(8));
}

#[test]
fn balance_check_queues_the_circuit_and_its_callback_reports() {
    let mut account = active_account(1);
    let request = check_balance(&mut account, 8, 5000).unwrap();
    assert_eq!(request.kind, ComputationKind::CheckBalance);
    assert_eq!(
        request.args,
        vec![
            Argument::PlaintextU128(44),
            Argument::AccountRef { record: 1, byte_offset: 48, byte_len: 32 },
            Argument::PlaintextU64(5000),
        ]
    );
    let event =
        check_balance_callback(&mut account, 8, ComputationOutputs::Success(true), 999).unwrap();
    assert!(event.is_above_threshold);
    assert_eq!(event.account_id, 1);
    assert_eq!(event.timestamp, 999);
    assert_eq!(account.pending_computation, None);
}

#[test]
fn rewards_queue_requires_active_and_free_account() {
    let (mut account, _) = initialize_user_account(1, PAYER, 1000, 11, CLIENT_KEY, 22, 5);
    assert_eq!(
        calculate_rewards(&mut account, 8).unwrap_err(),
        ErrorCode::InvalidAccountState
    );
    let mut account = active_account(1);
    calculate_rewards(&mut account, 8).unwrap();
    assert_eq!(
        calculate_rewards(&mut account, 9).unwrap_err(),
        ErrorCode::ComputationPending
    );
}

#[test]
fn rewards_accumulate_monotonically() {
    let mut account = active_account(1);
    let request = calculate_rewards(&mut account, 8).unwrap();
    assert_eq!(request.kind, ComputationKind::CalculateRewards);
    assert_eq!(
        request.args,
        vec![
            Argument::PlaintextU64(0),
            Argument::PlaintextU128(44),
            Argument::AccountRef { record: 1, byte_offset: 48, byte_len: 32 },
        ]
    );
    let event =
        calculate_rewards_callback(&mut account, 8, ComputationOutputs::Success(150)).unwrap();
    assert_eq!(event.reward_points, 150);
    assert_eq!(event.total_rewards, 150);
    assert_eq!(account.reward_points, 150);
    calculate_rewards(&mut account, 9).unwrap();
    let event =
        calculate_rewards_callback(&mut account, 9, ComputationOutputs::Success(70)).unwrap();
    assert_eq!(event.total_rewards, 220);
    assert_eq!(account.reward_points, 220);
}

#[test]
fn duplicate_rewards_callback_does_not_accumulate_twice() {
    let mut account = active_account(1);
    calculate_rewards(&mut account, 8).unwrap();
    calculate_rewards_callback(&mut account, 8, ComputationOutputs::Success(150)).unwrap();
    let r = calculate_rewards_callback(&mut account, 8, ComputationOutputs::Success(150));
    assert_eq!(r.unwrap_err(), ErrorCode::StaleCallback);
    assert_eq!(account.reward_points, 150);
}

#[test]
fn balance_check_abort_only_consumes_the_handle() {
    let mut account = active_account(1);
    check_balance(&mut account, 8, 5000).unwrap();
    let r = check_balance_callback(&mut account, 8, ComputationOutputs::Aborted, 999);
    assert_eq!(r.unwrap_err(), ErrorCode::AbortedComputation);
    assert_eq!(account.pending_computation, None);
    assert_eq!(account.account_state, AccountState::Active);
    assert!(check_balance(&mut account, 9, 5000).is_ok());
}

#[test]
fn duplicate_balance_check_callback_is_rejected() {
    let mut account = active_account(1);
    check_balance(&mut account, 8, 5000).unwrap();
    check_balance_callback(&mut account, 8, ComputationOutputs::Success(false), 999).unwrap();
    let r = check_balance_callback(&mut account, 8, ComputationOutputs::Success(true), 999);
    assert_eq!(r.unwrap_err(), ErrorCode::StaleCallback);
}
