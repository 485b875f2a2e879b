//! The interface between the on-chain state machine and the MPC network: the
//! ordered argument list of a queued computation, the outcome a callback
//! delivers, and the error taxonomy of the orchestrator.
//!
//! Argument order is part of the wire contract: it must match the target
//! circuit's declared parameter order exactly, so every queue-phase function
//! states its full argument list in its contract.

use vstd::prelude::*;

verus! {

/// Byte offset of the balance ciphertext inside a stored user account:
/// it follows the discriminator, the account id and the owner key.
pub const BALANCE_CIPHERTEXT_OFFSET: u64 = 8 + 8 + 32;

/// Byte offset of the deck ciphertext inside a stored game record.
pub const DECK_CIPHERTEXT_OFFSET: u64 = 8;

/// Byte length of the three-chunk deck ciphertext.
pub const DECK_CIPHERTEXT_LEN: u64 = 32 * 3;

/// Byte offset of the player-hand ciphertext inside a stored game record.
pub const PLAYER_HAND_OFFSET: u64 = 8 + 32 * 3;

/// Byte offset of the dealer-hand ciphertext inside a stored game record.
pub const DEALER_HAND_OFFSET: u64 = 8 + 32 * 3 + 32;

/// Byte length of a single ciphertext chunk.
pub const CIPHERTEXT_LEN: u64 = 32;

/// One argument of a queued computation, in the circuit's declared order:
/// a plaintext scalar, an encryption public key, or a reference to a
/// ciphertext held in a stored record, given by record id, byte offset and
/// byte length.
#[derive(Clone, Copy, Debug, PartialEq, Eq)]
pub enum Argument {
    PlaintextU8(u8),
    PlaintextU64(u64),
    PlaintextU128(u128),
    EncryptionPubkey([u8; 32]),
    AccountRef { record: u64, byte_offset: u64, byte_len: u64 },
}

/// The circuit a queued computation asks the MPC network to run.
#[derive(Clone, Copy, Debug, PartialEq, Eq, Structural)]
pub enum ComputationKind {
    InitializeAccounts,
    ProcessPayment,
    CheckBalance,
    CalculateRewards,
    ShuffleAndDealCards,
    PlayerHit,
    PlayerStand,
    PlayerDoubleDown,
    DealerPlay,
    ResolveGame,
}

/// A computation handed to the MPC network by the queue phase of an action:
/// the unique offset correlating it with its callback, the circuit to run,
/// and the ordered argument list.
#[derive(Debug)]
pub struct ComputationRequest {
    pub computation_offset: u64,
    pub kind: ComputationKind,
    pub args: Vec<Argument>,
}

/// What the MPC network delivers to a callback: either the circuit's typed
/// output, or an abort signal when the cluster could not complete the run.
#[derive(Clone, Copy, Debug)]
pub enum ComputationOutputs<T> {
    Success(T),
    Aborted,
}

/// A ciphertext output of a circuit: the encrypting key, the fresh nonce,
/// and the ciphertext bytes.
#[derive(Clone, Copy, Debug, PartialEq, Eq)]
pub struct CipherPayload {
    pub encryption_key: [u8; 32],
    pub nonce: u128,
    pub ciphertext: [u8; 32],
}

/// The deck ciphertext output of a circuit: a fresh nonce and the three
/// 32-byte chunks covering all 52 cards.
#[derive(Clone, Copy, Debug, PartialEq, Eq)]
pub struct DeckCipherPayload {
    pub nonce: u128,
    pub ciphertexts: [[u8; 32]; 3],
}

/// Every error the orchestrator surfaces. Precondition violations are
/// rejected at queue time; aborted and stale computations at callback time;
/// an insufficient balance is a business-rule failure revealed by the
/// payment circuit.
#[derive(Clone, Copy, Debug, PartialEq, Eq, Structural)]
pub enum ErrorCode {
    /// The MPC network aborted the computation.
    AbortedComputation,
    /// The account is not in the state the action requires.
    InvalidAccountState,
    /// The payment circuit revealed that the sender cannot cover the amount.
    InsufficientBalance,
    /// An encryption key in a callback payload does not match the record.
    InvalidEncryptionPubkey,
    /// The MPC cluster is not available for queueing.
    ClusterNotSet,
    /// The game is not in the state the action requires.
    InvalidGameState,
    /// The move is not open to the player (the player has already stood).
    InvalidMove,
    /// The dealer up-card was encrypted under a key other than the player's.
    InvalidDealerClientPubkey,
    /// The record already has a computation outstanding.
    ComputationPending,
    /// The callback does not correlate with the record's outstanding
    /// computation: its handle was never issued or was already resolved.
    StaleCallback,
}

/// Whether a callback's computation offset matches the record's outstanding
/// computation handle.
pub fn pending_matches(pending: &Option<u64>, computation_offset: u64) -> (matches: bool)
    ensures
        matches == (*pending == Some(computation_offset)),
{
    match pending {
        Some(handle) => *handle == computation_offset,
        None => false,
    }
}

/// Byte-for-byte equality of two 32-byte keys or ciphertexts.
pub fn bytes32_eq(a: &[u8; 32], b: &[u8; 32]) -> (equal: bool)
    ensures
        equal == (a@ == b@),
{
    let mut i: usize = 0;
    while i < 32
        invariant
            i <= 32,
            forall|j: int| 0 <= j < i ==> a@[j] == b@[j],
        decreases 32 - i,
    {
        if a[i] != b[i] {
            return false;
        }
        i = i + 1;
    }
    proof {
        assert(a@ =~= b@);
    }
    true
}

} // verus!
