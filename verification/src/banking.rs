//! The banking side of the orchestrator: user accounts with encrypted
//! balances, payment transactions, and the queue/callback pair of every
//! banking action.
//!
//! Each action runs in two phases. The queue phase validates preconditions
//! against the persisted record and, when they hold, marks the record's
//! outstanding computation and hands back the ordered argument list for the
//! MPC network; a violated precondition fails the call with its error and
//! changes nothing. The callback phase fires once, when the network delivers
//! the outcome for the matching computation offset: a stale or repeated
//! delivery is rejected unprocessed, an abort only consumes the outstanding
//! handle, and a success persists the outputs and advances the record's
//! state.

use vstd::prelude::*;
use crate::protocol::{
    Argument, CipherPayload, ComputationKind, ComputationOutputs, ComputationRequest, ErrorCode,
    pending_matches, BALANCE_CIPHERTEXT_OFFSET, CIPHERTEXT_LEN,
};

verus! {

/// Lifecycle state of a user account.
#[derive(Clone, Copy, Debug, PartialEq, Eq, Structural)]
pub enum AccountState {
    Initializing,
    Active,
    Frozen,
    Closed,
}

/// Lifecycle state of a payment transaction.
#[derive(Clone, Copy, Debug, PartialEq, Eq, Structural)]
pub enum TransactionStatus {
    Processing,
    Completed,
    Failed,
}

/// A user account: identity, the balance ciphertext with its nonce, the
/// plaintext activity counters, the owner's encryption key, the lifecycle
/// state, and the handle of the one computation that may be outstanding
/// against the record.
#[derive(Clone, Copy, Debug)]
pub struct UserAccount {
    pub account_id: u64,
    pub owner_pubkey: [u8; 32],
    pub encrypted_balance: [u8; 32],
    pub balance_nonce: u128,
    pub transaction_count: u64,
    pub reward_points: u64,
    pub owner_enc_pubkey: [u8; 32],
    pub account_state: AccountState,
    pub pending_computation: Option<u64>,
}

/// A payment record: immutable identity, the amount ciphertext with its
/// nonce, the submission timestamp, the status, and the outstanding
/// computation handle.
#[derive(Clone, Copy, Debug)]
pub struct Transaction {
    pub transaction_id: u64,
    pub sender: u64,
    pub receiver: u64,
    pub encrypted_amount: [u8; 32],
    pub amount_nonce: u128,
    pub timestamp: i64,
    pub status: TransactionStatus,
    pub pending_computation: Option<u64>,
}

/// An account's balance ciphertext was stored and the account became active.
#[derive(Clone, Copy, Debug, PartialEq, Eq)]
pub struct AccountInitializedEvent {
    pub account_id: u64,
    pub owner: [u8; 32],
    pub balance_nonce: u128,
}

/// A payment completed: the sender covered the amount.
#[derive(Clone, Copy, Debug, PartialEq, Eq, Structural)]
pub struct PaymentProcessedEvent {
    pub transaction_id: u64,
    pub sender: u64,
    pub receiver: u64,
    pub timestamp: i64,
}

/// A payment failed: the circuit revealed the reason.
#[derive(Clone, Copy, Debug, PartialEq, Eq, Structural)]
pub struct PaymentFailedEvent {
    pub transaction_id: u64,
    pub reason: ErrorCode,
}

/// A reward computation landed: the points earned and the new total.
#[derive(Clone, Copy, Debug, PartialEq, Eq, Structural)]
pub struct RewardsCalculatedEvent {
    pub account_id: u64,
    pub reward_points: u64,
    pub total_rewards: u64,
}

/// A balance threshold check landed; only the boolean is revealed.
#[derive(Clone, Copy, Debug, PartialEq, Eq, Structural)]
pub struct BalanceCheckEvent {
    pub account_id: u64,
    pub is_above_threshold: bool,
    pub timestamp: i64,
}

/// Output of the account-initialization circuit: the balance encrypted for
/// the cluster and for the account holder.
#[derive(Clone, Copy, Debug)]
pub struct InitializeAccountsOutput {
    pub mxe_balance: CipherPayload,
    pub client_balance: CipherPayload,
}

/// Output of the payment circuit: both balances re-encrypted (whatever the
/// outcome, so freshness reveals nothing) and the revealed sufficiency flag.
#[derive(Clone, Copy, Debug)]
pub struct ProcessPaymentOutput {
    pub sender_balance: CipherPayload,
    pub receiver_balance: CipherPayload,
    pub is_sufficient: bool,
}

/// `account` with its outstanding computation handle replaced.
pub open spec fn account_with_pending(account: UserAccount, pending: Option<u64>) -> UserAccount {
    UserAccount { pending_computation: pending, ..account }
}

/// `transaction` with its outstanding computation handle replaced.
pub open spec fn transaction_with_pending(
    transaction: Transaction,
    pending: Option<u64>,
) -> Transaction {
    Transaction { pending_computation: pending, ..transaction }
}

/// The ordered argument list of the account-initialization computation; the
/// client key and nonce appear once per ciphertext the circuit returns for
/// the client.
pub open spec fn initialize_accounts_args(
    initial_balance: u64,
    mxe_nonce: u128,
    client_pubkey: [u8; 32],
    client_nonce: u128,
) -> Seq<Argument> {
    seq![
        Argument::PlaintextU64(initial_balance),
        Argument::PlaintextU128(mxe_nonce),
        Argument::EncryptionPubkey(client_pubkey),
        Argument::PlaintextU128(client_nonce),
        Argument::EncryptionPubkey(client_pubkey),
        Argument::PlaintextU128(client_nonce),
    ]
}

/// Queue phase of account creation: builds the new account record in the
/// `Initializing` state with a zeroed balance ciphertext, and queues the
/// initialization computation for it.
pub fn initialize_user_account(
    account_id: u64,
    payer: [u8; 32],
    initial_balance: u64,
    mxe_nonce: u128,
    client_pubkey: [u8; 32],
    client_nonce: u128,
    computation_offset: u64,
) -> (r: (UserAccount, ComputationRequest))
    ensures
        r.0.account_id == account_id,
        r.0.owner_pubkey == payer,
        r.0.encrypted_balance@ == Seq::new(32, |i: int| 0u8),
        r.0.balance_nonce == 0,
        r.0.transaction_count == 0,
        r.0.reward_points == 0,
        r.0.owner_enc_pubkey == client_pubkey,
        r.0.account_state == AccountState::Initializing,
        r.0.pending_computation == Some(computation_offset),
        r.1.computation_offset == computation_offset,
        r.1.kind == ComputationKind::InitializeAccounts,
        r.1.args@ == initialize_accounts_args(
            initial_balance,
            mxe_nonce,
            client_pubkey,
            client_nonce,
        ),
{
    let account = UserAccount {
        account_id,
        owner_pubkey: payer,
        encrypted_balance: [0u8; 32],
        balance_nonce: 0,
        transaction_count: 0,
        reward_points: 0,
        owner_enc_pubkey: client_pubkey,
        account_state: AccountState::Initializing,
        pending_computation: Some(computation_offset),
    };
    let mut args: Vec<Argument> = Vec::new();
    args.push(Argument::PlaintextU64(initial_balance));
    args.push(Argument::PlaintextU128(mxe_nonce));
    args.push(Argument::EncryptionPubkey(client_pubkey));
    args.push(Argument::PlaintextU128(client_nonce));
    args.push(Argument::EncryptionPubkey(client_pubkey));
    args.push(Argument::PlaintextU128(client_nonce));
    proof {
        assert(args@ =~= initialize_accounts_args(
            initial_balance,
            mxe_nonce,
            client_pubkey,
            client_nonce,
        ));
        assert(account.encrypted_balance@ =~= Seq::new(32, |i: int| 0u8));
    }
    (
        account,
        ComputationRequest { computation_offset, kind: ComputationKind::InitializeAccounts, args },
    )
}

/// Callback phase of account creation: stores the client-owned balance
/// ciphertext and nonce and activates the account. A callback whose offset
/// is not the record's outstanding computation is rejected unprocessed; an
/// abort only consumes the handle and leaves the record provisional.
pub fn initialize_accounts_callback(
    account: &mut UserAccount,
    computation_offset: u64,
    output: ComputationOutputs<InitializeAccountsOutput>,
) -> (r: Result<AccountInitializedEvent, ErrorCode>)
    ensures
        old(account).pending_computation != Some(computation_offset) ==> r == Err::<
            AccountInitializedEvent,
            ErrorCode,
        >(ErrorCode::StaleCallback) && *final(account) == *old(account),
        old(account).pending_computation == Some(computation_offset) && output is Aborted ==> r
            == Err::<AccountInitializedEvent, ErrorCode>(ErrorCode::AbortedComputation) && *final(account) == account_with_pending(*old(account), None),
        output matches ComputationOutputs::Success(o) ==> (old(account).pending_computation
            == Some(computation_offset) ==> *final(account) == (UserAccount {
            encrypted_balance: o.client_balance.ciphertext,
            balance_nonce: o.client_balance.nonce,
            account_state: AccountState::Active,
            pending_computation: None,
            ..*old(account)
        }) && r == Ok::<AccountInitializedEvent, ErrorCode>(
            AccountInitializedEvent {
                account_id: old(account).account_id,
                owner: old(account).owner_pubkey,
                balance_nonce: o.client_balance.nonce,
            },
        )),
{
    if !pending_matches(&account.pending_computation, computation_offset) {
        return Err(ErrorCode::StaleCallback);
    }
    account.pending_computation = None;
    match output {
        ComputationOutputs::Aborted => Err(ErrorCode::AbortedComputation),
        ComputationOutputs::Success(o) => {
            account.encrypted_balance = o.client_balance.ciphertext;
            account.balance_nonce = o.client_balance.nonce;
            account.account_state = AccountState::Active;
            Ok(
                AccountInitializedEvent {
                    account_id: account.account_id,
                    owner: account.owner_pubkey,
                    balance_nonce: o.client_balance.nonce,
                },
            )
        },
    }
}

/// The ordered argument list of the payment computation: each balance
/// ciphertext reference paired with its nonce, then the amount, then the
/// receiver's key and fresh nonce for the re-encrypted receiver balance.
pub open spec fn process_payment_args(
    sender: UserAccount,
    receiver: UserAccount,
    amount: u64,
    receiver_new_nonce: u128,
) -> Seq<Argument> {
    seq![
        Argument::PlaintextU128(sender.balance_nonce),
        Argument::AccountRef {
            record: sender.account_id,
            byte_offset: BALANCE_CIPHERTEXT_OFFSET,
            byte_len: CIPHERTEXT_LEN,
        },
        Argument::PlaintextU128(receiver.balance_nonce),
        Argument::AccountRef {
            record: receiver.account_id,
            byte_offset: BALANCE_CIPHERTEXT_OFFSET,
            byte_len: CIPHERTEXT_LEN,
        },
        Argument::PlaintextU64(amount),
        Argument::EncryptionPubkey(receiver.owner_enc_pubkey),
        Argument::PlaintextU128(receiver_new_nonce),
    ]
}

/// Queue phase of a payment: both accounts must be active; then a fresh
/// transaction record is created in the `Processing` state, provisional
/// until the callback lands, and the payment computation is queued against
/// it. A violated precondition rejects the call with no record created and
/// nothing queued.
pub fn process_payment(
    sender: &UserAccount,
    receiver: &UserAccount,
    computation_offset: u64,
    transaction_id: u64,
    amount: u64,
    receiver_new_nonce: u128,
    timestamp: i64,
) -> (r: Result<(Transaction, ComputationRequest), ErrorCode>)
    ensures
        sender.account_state != AccountState::Active || receiver.account_state
            != AccountState::Active ==> r == Err::<(Transaction, ComputationRequest), ErrorCode>(
            ErrorCode::InvalidAccountState,
        ),
        sender.account_state == AccountState::Active && receiver.account_state
            == AccountState::Active ==> ({
            &&& r matches Ok((transaction, request))
            &&& transaction.transaction_id == transaction_id
            &&& transaction.sender == sender.account_id
            &&& transaction.receiver == receiver.account_id
            &&& transaction.encrypted_amount@ == Seq::new(32, |i: int| 0u8)
            &&& transaction.amount_nonce == 0
            &&& transaction.timestamp == timestamp
            &&& transaction.status == TransactionStatus::Processing
            &&& transaction.pending_computation == Some(computation_offset)
            &&& request.computation_offset == computation_offset
            &&& request.kind == ComputationKind::ProcessPayment
            &&& request.args@ == process_payment_args(
                *sender,
                *receiver,
                amount,
                receiver_new_nonce,
            )
        }),
{
    if sender.account_state != AccountState::Active {
        return Err(ErrorCode::InvalidAccountState);
    }
    if receiver.account_state != AccountState::Active {
        return Err(ErrorCode::InvalidAccountState);
    }
    let transaction = Transaction {
        transaction_id,
        sender: sender.account_id,
        receiver: receiver.account_id,
        encrypted_amount: [0u8; 32],
        amount_nonce: 0,
        timestamp,
        status: TransactionStatus::Processing,
        pending_computation: Some(computation_offset),
    };
    let mut args: Vec<Argument> = Vec::new();
    args.push(Argument::PlaintextU128(sender.balance_nonce));
    args.push(
        Argument::AccountRef {
            record: sender.account_id,
            byte_offset: BALANCE_CIPHERTEXT_OFFSET,
            byte_len: CIPHERTEXT_LEN,
        },
    );
    args.push(Argument::PlaintextU128(receiver.balance_nonce));
    args.push(
        Argument::AccountRef {
            record: receiver.account_id,
            byte_offset: BALANCE_CIPHERTEXT_OFFSET,
            byte_len: CIPHERTEXT_LEN,
        },
    );
    args.push(Argument::PlaintextU64(amount));
    args.push(Argument::EncryptionPubkey(receiver.owner_enc_pubkey));
    args.push(Argument::PlaintextU128(receiver_new_nonce));
    proof {
        assert(args@ =~= process_payment_args(*sender, *receiver, amount, receiver_new_nonce));
        assert(transaction.encrypted_amount@ =~= Seq::new(32, |i: int| 0u8));
    }
    Ok(
        (
            transaction,
            ComputationRequest {
                computation_offset,
                kind: ComputationKind::ProcessPayment,
                args,
            },
        ),
    )
}

/// Callback phase of a payment, finalizing the transaction exactly once.
/// The circuit's re-encrypted balances arrive in the payload but are owned
/// by the account records, not by this transaction, so only the revealed
/// sufficiency flag is applied here: it flips the status to `Completed`, or
/// to `Failed` with the insufficient-balance error, which is a business-rule
/// failure distinct from an abort.
pub fn process_payment_callback(
    transaction: &mut Transaction,
    computation_offset: u64,
    output: ComputationOutputs<ProcessPaymentOutput>,
) -> (r: Result<PaymentProcessedEvent, ErrorCode>)
    ensures
        old(transaction).pending_computation != Some(computation_offset) ==> r == Err::<
            PaymentProcessedEvent,
            ErrorCode,
        >(ErrorCode::StaleCallback) && *final(transaction) == *old(transaction),
        old(transaction).pending_computation == Some(computation_offset) && output is Aborted ==> r
            == Err::<PaymentProcessedEvent, ErrorCode>(ErrorCode::AbortedComputation) && *final(transaction) == transaction_with_pending(*old(transaction), None),
        output matches ComputationOutputs::Success(o) ==> (old(transaction).pending_computation
            == Some(computation_offset) && !o.is_sufficient ==> r == Err::<
            PaymentProcessedEvent,
            ErrorCode,
        >(ErrorCode::InsufficientBalance) && *final(transaction) == (Transaction {
            status: TransactionStatus::Failed,
            pending_computation: None,
            ..*old(transaction)
        })),
        output matches ComputationOutputs::Success(o) ==> (old(transaction).pending_computation
            == Some(computation_offset) && o.is_sufficient ==> *final(transaction)
            == (Transaction {
            status: TransactionStatus::Completed,
            pending_computation: None,
            ..*old(transaction)
        }) && r == Ok::<PaymentProcessedEvent, ErrorCode>(
            PaymentProcessedEvent {
                transaction_id: old(transaction).transaction_id,
                sender: old(transaction).sender,
                receiver: old(transaction).receiver,
                timestamp: old(transaction).timestamp,
            },
        )),
{
    if !pending_matches(&transaction.pending_computation, computation_offset) {
        return Err(ErrorCode::StaleCallback);
    }
    transaction.pending_computation = None;
    match output {
        ComputationOutputs::Aborted => Err(ErrorCode::AbortedComputation),
        ComputationOutputs::Success(o) => {
            if !o.is_sufficient {
                transaction.status = TransactionStatus::Failed;
                Err(ErrorCode::InsufficientBalance)
            } else {
                transaction.status = TransactionStatus::Completed;
                Ok(
                    PaymentProcessedEvent {
                        transaction_id: transaction.transaction_id,
                        sender: transaction.sender,
                        receiver: transaction.receiver,
                        timestamp: transaction.timestamp,
                    },
                )
            }
        },
    }
}

/// The ordered argument list of the balance threshold check.
pub open spec fn check_balance_args(account: UserAccount, threshold: u64) -> Seq<Argument> {
    seq![
        Argument::PlaintextU128(account.balance_nonce),
        Argument::AccountRef {
            record: account.account_id,
            byte_offset: BALANCE_CIPHERTEXT_OFFSET,
            byte_len: CIPHERTEXT_LEN,
        },
        Argument::PlaintextU64(threshold),
    ]
}

/// Queue phase of a balance threshold check: the account must be active and
/// free of outstanding computations; nothing but the outstanding handle is
/// touched.
pub fn check_balance(account: &mut UserAccount, computation_offset: u64, threshold: u64) -> (r:
    Result<ComputationRequest, ErrorCode>)
    ensures
        old(account).account_state != AccountState::Active ==> r == Err::<
            ComputationRequest,
            ErrorCode,
        >(ErrorCode::InvalidAccountState) && *final(account) == *old(account),
        old(account).account_state == AccountState::Active && old(account).pending_computation
            is Some ==> r == Err::<ComputationRequest, ErrorCode>(ErrorCode::ComputationPending)
            && *final(account) == *old(account),
        old(account).account_state == AccountState::Active && old(account).pending_computation
            is None ==> ({
            &&& *final(account) == account_with_pending(*old(account), Some(computation_offset))
            &&& r matches Ok(request)
            &&& request.computation_offset == computation_offset
            &&& request.kind == ComputationKind::CheckBalance
            &&& request.args@ == check_balance_args(*old(account), threshold)
        }),
{
    if account.account_state != AccountState::Active {
        return Err(ErrorCode::InvalidAccountState);
    }
    if account.pending_computation.is_some() {
        return Err(ErrorCode::ComputationPending);
    }
    account.pending_computation = Some(computation_offset);
    let mut args: Vec<Argument> = Vec::new();
    args.push(Argument::PlaintextU128(account.balance_nonce));
    args.push(
        Argument::AccountRef {
            record: account.account_id,
            byte_offset: BALANCE_CIPHERTEXT_OFFSET,
            byte_len: CIPHERTEXT_LEN,
        },
    );
    args.push(Argument::PlaintextU64(threshold));
    proof {
        assert(args@ =~= check_balance_args(*old(account), threshold));
    }
    Ok(ComputationRequest { computation_offset, kind: ComputationKind::CheckBalance, args })
}

/// Callback phase of a balance threshold check: nothing is persisted beyond
/// consuming the outstanding handle; the revealed boolean only feeds the
/// observer event, stamped with the time the callback landed.
pub fn check_balance_callback(
    account: &mut UserAccount,
    computation_offset: u64,
    output: ComputationOutputs<bool>,
    timestamp: i64,
) -> (r: Result<BalanceCheckEvent, ErrorCode>)
    ensures
        old(account).pending_computation != Some(computation_offset) ==> r == Err::<
            BalanceCheckEvent,
            ErrorCode,
        >(ErrorCode::StaleCallback) && *final(account) == *old(account),
        old(account).pending_computation == Some(computation_offset) && output is Aborted ==> r
            == Err::<BalanceCheckEvent, ErrorCode>(ErrorCode::AbortedComputation) && *final(account)
            == account_with_pending(*old(account), None),
        output matches ComputationOutputs::Success(above) ==> (old(account).pending_computation
            == Some(computation_offset) ==> *final(account) == account_with_pending(
            *old(account),
            None,
        ) && r == Ok::<BalanceCheckEvent, ErrorCode>(
            BalanceCheckEvent {
                account_id: old(account).account_id,
                is_above_threshold: above,
                timestamp,
            },
        )),
{
    if !pending_matches(&account.pending_computation, computation_offset) {
        return Err(ErrorCode::StaleCallback);
    }
    account.pending_computation = None;
    match output {
        ComputationOutputs::Aborted => Err(ErrorCode::AbortedComputation),
        ComputationOutputs::Success(above) => Ok(
            BalanceCheckEvent {
                account_id: account.account_id,
                is_above_threshold: above,
                timestamp,
            },
        ),
    }
}

/// The ordered argument list of the reward computation.
pub open spec fn calculate_rewards_args(account: UserAccount) -> Seq<Argument> {
    seq![
        Argument::PlaintextU64(account.transaction_count),
        Argument::PlaintextU128(account.balance_nonce),
        Argument::AccountRef {
            record: account.account_id,
            byte_offset: BALANCE_CIPHERTEXT_OFFSET,
            byte_len: CIPHERTEXT_LEN,
        },
    ]
}

/// Queue phase of a reward computation: the account must be active and free
/// of outstanding computations.
pub fn calculate_rewards(account: &mut UserAccount, computation_offset: u64) -> (r: Result<
    ComputationRequest,
    ErrorCode,
>)
    ensures
        old(account).account_state != AccountState::Active ==> r == Err::<
            ComputationRequest,
            ErrorCode,
        >(ErrorCode::InvalidAccountState) && *final(account) == *old(account),
        old(account).account_state == AccountState::Active && old(account).pending_computation
            is Some ==> r == Err::<ComputationRequest, ErrorCode>(ErrorCode::ComputationPending)
            && *final(account) == *old(account),
        old(account).account_state == AccountState::Active && old(account).pending_computation
            is None ==> ({
            &&& *final(account) == account_with_pending(*old(account), Some(computation_offset))
            &&& r matches Ok(request)
            &&& request.computation_offset == computation_offset
            &&& request.kind == ComputationKind::CalculateRewards
            &&& request.args@ == calculate_rewards_args(*old(account))
        }),
{
    if account.account_state != AccountState::Active {
        return Err(ErrorCode::InvalidAccountState);
    }
    if account.pending_computation.is_some() {
        return Err(ErrorCode::ComputationPending);
    }
    account.pending_computation = Some(computation_offset);
    let mut args: Vec<Argument> = Vec::new();
    args.push(Argument::PlaintextU64(account.transaction_count));
    args.push(Argument::PlaintextU128(account.balance_nonce));
    args.push(
        Argument::AccountRef {
            record: account.account_id,
            byte_offset: BALANCE_CIPHERTEXT_OFFSET,
            byte_len: CIPHERTEXT_LEN,
        },
    );
    proof {
        assert(args@ =~= calculate_rewards_args(*old(account)));
    }
    Ok(ComputationRequest { computation_offset, kind: ComputationKind::CalculateRewards, args })
}

/// Callback phase of a reward computation: adds the revealed reward to the
/// account's monotonic accumulator. The caller must have room for the
/// addition; the protocol never resets the accumulator.
pub fn calculate_rewards_callback(
    account: &mut UserAccount,
    computation_offset: u64,
    output: ComputationOutputs<u64>,
) -> (r: Result<RewardsCalculatedEvent, ErrorCode>)
    requires
        output matches ComputationOutputs::Success(points) ==> (old(account).pending_computation
            == Some(computation_offset) ==> old(account).reward_points + points <= u64::MAX),
    ensures
        old(account).pending_computation != Some(computation_offset) ==> r == Err::<
            RewardsCalculatedEvent,
            ErrorCode,
        >(ErrorCode::StaleCallback) && *final(account) == *old(account),
        old(account).pending_computation == Some(computation_offset) && output is Aborted ==> r
            == Err::<RewardsCalculatedEvent, ErrorCode>(ErrorCode::AbortedComputation) && *final(account) == account_with_pending(*old(account), None),
        output matches ComputationOutputs::Success(points) ==> (old(account).pending_computation
            == Some(computation_offset) ==> *final(account) == (UserAccount {
            reward_points: (old(account).reward_points + points) as u64,
            pending_computation: None,
            ..*old(account)
        }) && r == Ok::<RewardsCalculatedEvent, ErrorCode>(
            RewardsCalculatedEvent {
                account_id: old(account).account_id,
                reward_points: points,
                total_rewards: (old(account).reward_points + points) as u64,
            },
        )),
{
    if !pending_matches(&account.pending_computation, computation_offset) {
        return Err(ErrorCode::StaleCallback);
    }
    account.pending_computation = None;
    match output {
        ComputationOutputs::Aborted => Err(ErrorCode::AbortedComputation),
        ComputationOutputs::Success(points) => {
            account.reward_points = account.reward_points + points;
            Ok(
                RewardsCalculatedEvent {
                    account_id: account.account_id,
                    reward_points: points,
                    total_rewards: account.reward_points,
                },
            )
        },
    }
}

} // verus!
