//! The blackjack side of the orchestrator: one record per game session,
//! advancing strictly forward through its state enum as the queue/callback
//! pair of each action lands. The one exception is the defensive re-entry of
//! the stand callback: a stand that reveals a bust should be structurally
//! impossible, so the handler keeps the game in the player's turn instead of
//! advancing, rather than trusting the unexpected signal.
//!
//! As on the banking side, a queue phase validates preconditions and marks
//! the record's outstanding computation, and the callback phase fires once
//! for the matching computation offset: stale or repeated deliveries are
//! rejected unprocessed, an abort only consumes the outstanding handle.

use vstd::prelude::*;
use crate::protocol::{
    Argument, CipherPayload, ComputationKind, ComputationOutputs, ComputationRequest,
    DeckCipherPayload, ErrorCode, bytes32_eq, pending_matches, CIPHERTEXT_LEN,
    DECK_CIPHERTEXT_LEN, DECK_CIPHERTEXT_OFFSET, DEALER_HAND_OFFSET, PLAYER_HAND_OFFSET,
};

verus! {

/// Lifecycle state of a game session; it only ever advances, except for the
/// documented defensive re-entry in the stand callback.
#[derive(Clone, Copy, Debug, PartialEq, Eq, Structural)]
pub enum GameState {
    Initial,
    PlayerTurn,
    DealerTurn,
    Resolving,
    Resolved,
}

/// A game session: the deck ciphertext in three chunks with its nonce, each
/// hand's ciphertext with its nonce and plaintext size, the player's keys,
/// the turn flags, the stored result, and the handle of the one computation
/// that may be outstanding against the record.
#[derive(Clone, Copy, Debug)]
pub struct BlackjackGame {
    pub game_id: u64,
    pub deck: [[u8; 32]; 3],
    pub player_hand: [u8; 32],
    pub dealer_hand: [u8; 32],
    pub deck_nonce: u128,
    pub client_nonce: u128,
    pub dealer_nonce: u128,
    pub player_pubkey: [u8; 32],
    pub player_enc_pubkey: [u8; 32],
    pub game_state: GameState,
    pub player_hand_size: u8,
    pub dealer_hand_size: u8,
    pub player_has_stood: bool,
    pub game_result: u8,
    pub pending_computation: Option<u64>,
}

/// Who won a resolved game, derived from the revealed result code.
#[derive(Clone, Copy, Debug, PartialEq, Eq, Structural)]
pub enum GameWinner {
    Player,
    Dealer,
    Tie,
}

/// The opening deal landed: the player's hand and the dealer's face-up card,
/// both encrypted for the player.
#[derive(Clone, Copy, Debug, PartialEq, Eq)]
pub struct CardsShuffledAndDealtEvent {
    pub player_hand: [u8; 32],
    pub dealer_face_up_card: [u8; 32],
    pub client_nonce: u128,
    pub dealer_client_nonce: u128,
    pub game_id: u64,
}

/// A hit landed without busting.
#[derive(Clone, Copy, Debug, PartialEq, Eq)]
pub struct PlayerHitEvent {
    pub player_hand: [u8; 32],
    pub client_nonce: u128,
    pub game_id: u64,
}

/// A double-down landed without busting.
#[derive(Clone, Copy, Debug, PartialEq, Eq)]
pub struct PlayerDoubleDownEvent {
    pub player_hand: [u8; 32],
    pub client_nonce: u128,
    pub game_id: u64,
}

/// The player stood without busting.
#[derive(Clone, Copy, Debug, PartialEq, Eq, Structural)]
pub struct PlayerStandEvent {
    pub is_bust: bool,
    pub game_id: u64,
}

/// A draw or stand revealed a bust.
#[derive(Clone, Copy, Debug, PartialEq, Eq, Structural)]
pub struct PlayerBustEvent {
    pub client_nonce: u128,
    pub game_id: u64,
}

/// The dealer's turn finished; the hand shown is the player-readable copy.
#[derive(Clone, Copy, Debug, PartialEq, Eq)]
pub struct DealerPlayEvent {
    pub dealer_hand: [u8; 32],
    pub dealer_hand_size: u8,
    pub client_nonce: u128,
    pub game_id: u64,
}

/// The game resolved with the given winner.
#[derive(Clone, Copy, Debug, PartialEq, Eq, Structural)]
pub struct ResultEvent {
    pub winner: GameWinner,
    pub game_id: u64,
}

/// The observer event a game callback emits.
#[derive(Clone, Copy, Debug, PartialEq, Eq)]
pub enum BlackjackEvent {
    CardsShuffledAndDealt(CardsShuffledAndDealtEvent),
    PlayerHit(PlayerHitEvent),
    PlayerDoubleDown(PlayerDoubleDownEvent),
    PlayerStand(PlayerStandEvent),
    PlayerBust(PlayerBustEvent),
    DealerPlay(DealerPlayEvent),
    GameResolved(ResultEvent),
}

/// Output of the shuffle-and-deal circuit: the packed deck for the cluster,
/// the dealer's hand for the cluster, and the player's hand and the dealer's
/// up card encrypted for the player.
#[derive(Clone, Copy, Debug)]
pub struct ShuffleAndDealCardsOutput {
    pub deck: DeckCipherPayload,
    pub dealer_hand: CipherPayload,
    pub player_hand: CipherPayload,
    pub dealer_up_card: CipherPayload,
}

/// Output of the hit and double-down circuits: the re-encrypted player hand
/// and the revealed bust flag.
#[derive(Clone, Copy, Debug)]
pub struct PlayerHitOutput {
    pub player_hand: CipherPayload,
    pub is_bust: bool,
}

/// Output of the dealer-play circuit: the dealer hand re-encrypted for the
/// cluster and, for transparency, for the player, plus the revealed size.
#[derive(Clone, Copy, Debug)]
pub struct DealerPlayOutput {
    pub dealer_hand: CipherPayload,
    pub dealer_client_hand: CipherPayload,
    pub dealer_hand_size: u8,
}

/// `game` with its outstanding computation handle replaced.
pub open spec fn game_with_pending(game: BlackjackGame, pending: Option<u64>) -> BlackjackGame {
    BlackjackGame { pending_computation: pending, ..game }
}

/// The winner named by a revealed result code: 0 and 3 are dealer wins, 1
/// and 2 player wins, everything else a push.
pub open spec fn winner_of(result: u8) -> GameWinner {
    if result == 0 || result == 3 {
        GameWinner::Dealer
    } else if result == 1 || result == 2 {
        GameWinner::Player
    } else {
        GameWinner::Tie
    }
}

/// The ordered argument list of the shuffle-and-deal computation: the
/// cluster nonce once per cluster-owned ciphertext, then the player's key
/// and nonce once per player-owned ciphertext.
pub open spec fn shuffle_and_deal_args(
    mxe_nonce: u128,
    client_pubkey: [u8; 32],
    client_nonce: u128,
) -> Seq<Argument> {
    seq![
        Argument::PlaintextU128(mxe_nonce),
        Argument::PlaintextU128(mxe_nonce),
        Argument::EncryptionPubkey(client_pubkey),
        Argument::PlaintextU128(client_nonce),
        Argument::EncryptionPubkey(client_pubkey),
        Argument::PlaintextU128(client_nonce),
    ]
}

/// The ordered argument list of the hit and double-down computations: the
/// deck reference with its nonce, the player hand reference with the
/// player's key and nonce, then both hand sizes.
pub open spec fn draw_card_args(game: BlackjackGame) -> Seq<Argument> {
    seq![
        Argument::PlaintextU128(game.deck_nonce),
        Argument::AccountRef {
            record: game.game_id,
            byte_offset: DECK_CIPHERTEXT_OFFSET,
            byte_len: DECK_CIPHERTEXT_LEN,
        },
        Argument::EncryptionPubkey(game.player_enc_pubkey),
        Argument::PlaintextU128(game.client_nonce),
        Argument::AccountRef {
            record: game.game_id,
            byte_offset: PLAYER_HAND_OFFSET,
            byte_len: CIPHERTEXT_LEN,
        },
        Argument::PlaintextU8(game.player_hand_size),
        Argument::PlaintextU8(game.dealer_hand_size),
    ]
}

/// The ordered argument list of the stand computation.
pub open spec fn player_stand_args(game: BlackjackGame) -> Seq<Argument> {
    seq![
        Argument::EncryptionPubkey(game.player_enc_pubkey),
        Argument::PlaintextU128(game.client_nonce),
        Argument::AccountRef {
            record: game.game_id,
            byte_offset: PLAYER_HAND_OFFSET,
            byte_len: CIPHERTEXT_LEN,
        },
        Argument::PlaintextU8(game.player_hand_size),
    ]
}

/// The ordered argument list of the dealer-play computation; `nonce` is the
/// fresh nonce for the player-readable copy of the dealer hand.
pub open spec fn dealer_play_args(game: BlackjackGame, nonce: u128) -> Seq<Argument> {
    seq![
        Argument::PlaintextU128(game.deck_nonce),
        Argument::AccountRef {
            record: game.game_id,
            byte_offset: DECK_CIPHERTEXT_OFFSET,
            byte_len: DECK_CIPHERTEXT_LEN,
        },
        Argument::PlaintextU128(game.dealer_nonce),
        Argument::AccountRef {
            record: game.game_id,
            byte_offset: DEALER_HAND_OFFSET,
            byte_len: CIPHERTEXT_LEN,
        },
        Argument::EncryptionPubkey(game.player_enc_pubkey),
        Argument::PlaintextU128(nonce),
        Argument::PlaintextU8(game.player_hand_size),
        Argument::PlaintextU8(game.dealer_hand_size),
    ]
}

/// The ordered argument list of the resolve computation.
pub open spec fn resolve_game_args(game: BlackjackGame) -> Seq<Argument> {
    seq![
        Argument::EncryptionPubkey(game.player_enc_pubkey),
        Argument::PlaintextU128(game.client_nonce),
        Argument::AccountRef {
            record: game.game_id,
            byte_offset: PLAYER_HAND_OFFSET,
            byte_len: CIPHERTEXT_LEN,
        },
        Argument::PlaintextU128(game.dealer_nonce),
        Argument::AccountRef {
            record: game.game_id,
            byte_offset: DEALER_HAND_OFFSET,
            byte_len: CIPHERTEXT_LEN,
        },
        Argument::PlaintextU8(game.player_hand_size),
        Argument::PlaintextU8(game.dealer_hand_size),
    ]
}

/// Queue phase of a new game: builds the game record in the `Initial` state
/// with zeroed ciphertexts and queues the shuffle-and-deal computation. The
/// record is provisional until the callback stores the deal.
pub fn initialize_blackjack_game(
    game_id: u64,
    player_pubkey: [u8; 32],
    client_pubkey: [u8; 32],
    mxe_nonce: u128,
    client_nonce: u128,
    computation_offset: u64,
) -> (r: (BlackjackGame, ComputationRequest))
    ensures
        r.0.game_id == game_id,
        r.0.deck@.len() == 3 && forall|i: int|
            0 <= i < 3 ==> r.0.deck@[i]@ == Seq::new(32, |j: int| 0u8),
        r.0.player_hand@ == Seq::new(32, |j: int| 0u8),
        r.0.dealer_hand@ == Seq::new(32, |j: int| 0u8),
        r.0.deck_nonce == 0,
        r.0.client_nonce == 0,
        r.0.dealer_nonce == 0,
        r.0.player_pubkey == player_pubkey,
        r.0.player_enc_pubkey == client_pubkey,
        r.0.game_state == GameState::Initial,
        r.0.player_hand_size == 0,
        r.0.dealer_hand_size == 0,
        !r.0.player_has_stood,
        r.0.game_result == 0,
        r.0.pending_computation == Some(computation_offset),
        r.1.computation_offset == computation_offset,
        r.1.kind == ComputationKind::ShuffleAndDealCards,
        r.1.args@ == shuffle_and_deal_args(mxe_nonce, client_pubkey, client_nonce),
{
    let game = BlackjackGame {
        game_id,
        deck: [[0u8; 32]; 3],
        player_hand: [0u8; 32],
        dealer_hand: [0u8; 32],
        deck_nonce: 0,
        client_nonce: 0,
        dealer_nonce: 0,
        player_pubkey,
        player_enc_pubkey: client_pubkey,
        game_state: GameState::Initial,
        player_hand_size: 0,
        dealer_hand_size: 0,
        player_has_stood: false,
        game_result: 0,
        pending_computation: Some(computation_offset),
    };
    let mut args: Vec<Argument> = Vec::new();
    args.push(Argument::PlaintextU128(mxe_nonce));
    args.push(Argument::PlaintextU128(mxe_nonce));
    args.push(Argument::EncryptionPubkey(client_pubkey));
    args.push(Argument::PlaintextU128(client_nonce));
    args.push(Argument::EncryptionPubkey(client_pubkey));
    args.push(Argument::PlaintextU128(client_nonce));
    proof {
        assert(args@ =~= shuffle_and_deal_args(mxe_nonce, client_pubkey, client_nonce));
        assert(game.player_hand@ =~= Seq::new(32, |j: int| 0u8));
        assert forall|i: int| 0 <= i < 3 implies game.deck@[i]@ == Seq::new(
            32,
            |j: int| 0u8,
        ) by {
            assert(game.deck@[i]@ =~= Seq::new(32, |j: int| 0u8));
        }
    }
    (
        game,
        ComputationRequest {
            computation_offset,
            kind: ComputationKind::ShuffleAndDealCards,
            args,
        },
    )
}

/// Callback phase of the opening deal: stores the deck and both hands with
/// their fresh nonces, records the player's encryption key, sets both hand
/// sizes to two and hands the turn to the player. The up card must have been
/// encrypted under the same player key as the hand; otherwise the callback
/// is rejected whole and the record stays provisional.
pub fn shuffle_and_deal_cards_callback(
    game: &mut BlackjackGame,
    computation_offset: u64,
    output: ComputationOutputs<ShuffleAndDealCardsOutput>,
) -> (r: Result<BlackjackEvent, ErrorCode>)
    ensures
        old(game).pending_computation != Some(computation_offset) ==> r == Err::<
            BlackjackEvent,
            ErrorCode,
        >(ErrorCode::StaleCallback) && *final(game) == *old(game),
        old(game).pending_computation == Some(computation_offset) && output is Aborted ==> r
            == Err::<BlackjackEvent, ErrorCode>(ErrorCode::AbortedComputation) && *final(game)
            == game_with_pending(*old(game), None),
        output matches ComputationOutputs::Success(o) ==> (old(game).pending_computation == Some(
            computation_offset,
        ) && o.dealer_up_card.encryption_key@ != o.player_hand.encryption_key@ ==> r == Err::<
            BlackjackEvent,
            ErrorCode,
        >(ErrorCode::InvalidDealerClientPubkey) && *final(game) == *old(game)),
        output matches ComputationOutputs::Success(o) ==> (old(game).pending_computation == Some(
            computation_offset,
        ) && o.dealer_up_card.encryption_key@ == o.player_hand.encryption_key@ ==> *final(game)
            == (BlackjackGame {
            deck: o.deck.ciphertexts,
            player_hand: o.player_hand.ciphertext,
            dealer_hand: o.dealer_hand.ciphertext,
            deck_nonce: o.deck.nonce,
            client_nonce: o.player_hand.nonce,
            dealer_nonce: o.dealer_hand.nonce,
            player_enc_pubkey: o.player_hand.encryption_key,
            game_state: GameState::PlayerTurn,
            player_hand_size: 2,
            dealer_hand_size: 2,
            pending_computation: None,
            ..*old(game)
        }) && r == Ok::<BlackjackEvent, ErrorCode>(
            BlackjackEvent::CardsShuffledAndDealt(
                CardsShuffledAndDealtEvent {
                    player_hand: o.player_hand.ciphertext,
                    dealer_face_up_card: o.dealer_up_card.ciphertext,
                    client_nonce: o.player_hand.nonce,
                    dealer_client_nonce: o.dealer_up_card.nonce,
                    game_id: old(game).game_id,
                },
            ),
        )),
{
    if !pending_matches(&game.pending_computation, computation_offset) {
        return Err(ErrorCode::StaleCallback);
    }
    match output {
        ComputationOutputs::Aborted => {
            game.pending_computation = None;
            Err(ErrorCode::AbortedComputation)
        },
        ComputationOutputs::Success(o) => {
            if !bytes32_eq(&o.dealer_up_card.encryption_key, &o.player_hand.encryption_key) {
                return Err(ErrorCode::InvalidDealerClientPubkey);
            }
            game.deck = o.deck.ciphertexts;
            game.deck_nonce = o.deck.nonce;
            game.player_hand = o.player_hand.ciphertext;
            game.client_nonce = o.player_hand.nonce;
            game.dealer_hand = o.dealer_hand.ciphertext;
            game.dealer_nonce = o.dealer_hand.nonce;
            game.player_enc_pubkey = o.player_hand.encryption_key;
            game.game_state = GameState::PlayerTurn;
            game.player_hand_size = 2;
            game.dealer_hand_size = 2;
            game.pending_computation = None;
            Ok(
                BlackjackEvent::CardsShuffledAndDealt(
                    CardsShuffledAndDealtEvent {
                        player_hand: o.player_hand.ciphertext,
                        dealer_face_up_card: o.dealer_up_card.ciphertext,
                        client_nonce: o.player_hand.nonce,
                        dealer_client_nonce: o.dealer_up_card.nonce,
                        game_id: game.game_id,
                    },
                ),
            )
        },
    }
}

/// Queue phase of a hit: only during the player's turn, only while the
/// player has not stood, and only with no computation outstanding. A
/// violated precondition rejects the call with nothing mutated and nothing
/// queued.
pub fn player_hit(game: &mut BlackjackGame, computation_offset: u64) -> (r: Result<
    ComputationRequest,
    ErrorCode,
>)
    ensures
        old(game).game_state != GameState::PlayerTurn ==> r == Err::<
            ComputationRequest,
            ErrorCode,
        >(ErrorCode::InvalidGameState) && *final(game) == *old(game),
        old(game).game_state == GameState::PlayerTurn && old(game).player_has_stood ==> r == Err::<
            ComputationRequest,
            ErrorCode,
        >(ErrorCode::InvalidMove) && *final(game) == *old(game),
        old(game).game_state == GameState::PlayerTurn && !old(game).player_has_stood && old(
            game,
        ).pending_computation is Some ==> r == Err::<ComputationRequest, ErrorCode>(
            ErrorCode::ComputationPending,
        ) && *final(game) == *old(game),
        old(game).game_state == GameState::PlayerTurn && !old(game).player_has_stood && old(
            game,
        ).pending_computation is None ==> ({
            &&& *final(game) == game_with_pending(*old(game), Some(computation_offset))
            &&& r matches Ok(request)
            &&& request.computation_offset == computation_offset
            &&& request.kind == ComputationKind::PlayerHit
            &&& request.args@ == draw_card_args(*old(game))
        }),
{
    if game.game_state != GameState::PlayerTurn {
        return Err(ErrorCode::InvalidGameState);
    }
    if game.player_has_stood {
        return Err(ErrorCode::InvalidMove);
    }
    if game.pending_computation.is_some() {
        return Err(ErrorCode::ComputationPending);
    }
    game.pending_computation = Some(computation_offset);
    let args = push_draw_card_args(game);
    Ok(ComputationRequest { computation_offset, kind: ComputationKind::PlayerHit, args })
}

/// Builds the argument vector shared by the hit and double-down queues.
fn push_draw_card_args(game: &BlackjackGame) -> (args: Vec<Argument>)
    ensures
        args@ == draw_card_args(*game),
{
    let mut args: Vec<Argument> = Vec::new();
    args.push(Argument::PlaintextU128(game.deck_nonce));
    args.push(
        Argument::AccountRef {
            record: game.game_id,
            byte_offset: DECK_CIPHERTEXT_OFFSET,
            byte_len: DECK_CIPHERTEXT_LEN,
        },
    );
    args.push(Argument::EncryptionPubkey(game.player_enc_pubkey));
    args.push(Argument::PlaintextU128(game.client_nonce));
    args.push(
        Argument::AccountRef {
            record: game.game_id,
            byte_offset: PLAYER_HAND_OFFSET,
            byte_len: CIPHERTEXT_LEN,
        },
    );
    args.push(Argument::PlaintextU8(game.player_hand_size));
    args.push(Argument::PlaintextU8(game.dealer_hand_size));
    proof {
        assert(args@ =~= draw_card_args(*game));
    }
    args
}

/// Callback phase of a hit: stores the re-encrypted hand and its nonce. A
/// bust ends the player's turn without growing the hand (the circuit wrote
/// the sentinel); otherwise the hand grew by the drawn card, so the size
/// advances and the turn stays with the player. A success can only arrive
/// for a hand with a free slot, which the caller must ensure.
pub fn player_hit_callback(
    game: &mut BlackjackGame,
    computation_offset: u64,
    output: ComputationOutputs<PlayerHitOutput>,
) -> (r: Result<BlackjackEvent, ErrorCode>)
    requires
        output matches ComputationOutputs::Success(o) ==> (old(game).pending_computation == Some(
            computation_offset,
        ) && !o.is_bust ==> old(game).player_hand_size < 11),
    ensures
        old(game).pending_computation != Some(computation_offset) ==> r == Err::<
            BlackjackEvent,
            ErrorCode,
        >(ErrorCode::StaleCallback) && *final(game) == *old(game),
        old(game).pending_computation == Some(computation_offset) && output is Aborted ==> r
            == Err::<BlackjackEvent, ErrorCode>(ErrorCode::AbortedComputation) && *final(game)
            == game_with_pending(*old(game), None),
        output matches ComputationOutputs::Success(o) ==> (old(game).pending_computation == Some(
            computation_offset,
        ) && o.is_bust ==> *final(game) == (BlackjackGame {
            player_hand: o.player_hand.ciphertext,
            client_nonce: o.player_hand.nonce,
            game_state: GameState::DealerTurn,
            pending_computation: None,
            ..*old(game)
        }) && r == Ok::<BlackjackEvent, ErrorCode>(
            BlackjackEvent::PlayerBust(
                PlayerBustEvent {
                    client_nonce: o.player_hand.nonce,
                    game_id: old(game).game_id,
                },
            ),
        )),
        output matches ComputationOutputs::Success(o) ==> (old(game).pending_computation == Some(
            computation_offset,
        ) && !o.is_bust ==> *final(game) == (BlackjackGame {
            player_hand: o.player_hand.ciphertext,
            client_nonce: o.player_hand.nonce,
            game_state: GameState::PlayerTurn,
            player_hand_size: (old(game).player_hand_size + 1) as u8,
            pending_computation: None,
            ..*old(game)
        }) && r == Ok::<BlackjackEvent, ErrorCode>(
            BlackjackEvent::PlayerHit(
                PlayerHitEvent {
                    player_hand: o.player_hand.ciphertext,
                    client_nonce: o.player_hand.nonce,
                    game_id: old(game).game_id,
                },
            ),
        )),
{
    if !pending_matches(&game.pending_computation, computation_offset) {
        return Err(ErrorCode::StaleCallback);
    }
    game.pending_computation = None;
    match output {
        ComputationOutputs::Aborted => Err(ErrorCode::AbortedComputation),
        ComputationOutputs::Success(o) => {
            game.player_hand = o.player_hand.ciphertext;
            game.client_nonce = o.player_hand.nonce;
            if o.is_bust {
                game.game_state = GameState::DealerTurn;
                Ok(
                    BlackjackEvent::PlayerBust(
                        PlayerBustEvent { client_nonce: o.player_hand.nonce, game_id: game.game_id },
                    ),
                )
            } else {
                game.game_state = GameState::PlayerTurn;
                game.player_hand_size = game.player_hand_size + 1;
                Ok(
                    BlackjackEvent::PlayerHit(
                        PlayerHitEvent {
                            player_hand: o.player_hand.ciphertext,
                            client_nonce: o.player_hand.nonce,
                            game_id: game.game_id,
                        },
                    ),
                )
            }
        },
    }
}

/// Queue phase of a double-down: the same preconditions and the same drawn
/// card as a hit; the callback additionally flags the player as having
/// stood.
pub fn player_double_down(game: &mut BlackjackGame, computation_offset: u64) -> (r: Result<
    ComputationRequest,
    ErrorCode,
>)
    ensures
        old(game).game_state != GameState::PlayerTurn ==> r == Err::<
            ComputationRequest,
            ErrorCode,
        >(ErrorCode::InvalidGameState) && *final(game) == *old(game),
        old(game).game_state == GameState::PlayerTurn && old(game).player_has_stood ==> r == Err::<
            ComputationRequest,
            ErrorCode,
        >(ErrorCode::InvalidMove) && *final(game) == *old(game),
        old(game).game_state == GameState::PlayerTurn && !old(game).player_has_stood && old(
            game,
        ).pending_computation is Some ==> r == Err::<ComputationRequest, ErrorCode>(
            ErrorCode::ComputationPending,
        ) && *final(game) == *old(game),
        old(game).game_state == GameState::PlayerTurn && !old(game).player_has_stood && old(
            game,
        ).pending_computation is None ==> ({
            &&& *final(game) == game_with_pending(*old(game), Some(computation_offset))
            &&& r matches Ok(request)
            &&& request.computation_offset == computation_offset
            &&& request.kind == ComputationKind::PlayerDoubleDown
            &&& request.args@ == draw_card_args(*old(game))
        }),
{
    if game.game_state != GameState::PlayerTurn {
        return Err(ErrorCode::InvalidGameState);
    }
    if game.player_has_stood {
        return Err(ErrorCode::InvalidMove);
    }
    if game.pending_computation.is_some() {
        return Err(ErrorCode::ComputationPending);
    }
    game.pending_computation = Some(computation_offset);
    let args = push_draw_card_args(game);
    Ok(ComputationRequest { computation_offset, kind: ComputationKind::PlayerDoubleDown, args })
}

/// Callback phase of a double-down: stores the re-encrypted hand, flags the
/// player as having stood and hands the turn to the dealer whatever the
/// bust flag said; only the emitted event differs. The hand size is not
/// advanced: the doubled card sits in the slot past the counted hand.
pub fn player_double_down_callback(
    game: &mut BlackjackGame,
    computation_offset: u64,
    output: ComputationOutputs<PlayerHitOutput>,
) -> (r: Result<BlackjackEvent, ErrorCode>)
    ensures
        old(game).pending_computation != Some(computation_offset) ==> r == Err::<
            BlackjackEvent,
            ErrorCode,
        >(ErrorCode::StaleCallback) && *final(game) == *old(game),
        old(game).pending_computation == Some(computation_offset) && output is Aborted ==> r
            == Err::<BlackjackEvent, ErrorCode>(ErrorCode::AbortedComputation) && *final(game)
            == game_with_pending(*old(game), None),
        output matches ComputationOutputs::Success(o) ==> (old(game).pending_computation == Some(
            computation_offset,
        ) ==> *final(game) == (BlackjackGame {
            player_hand: o.player_hand.ciphertext,
            client_nonce: o.player_hand.nonce,
            player_has_stood: true,
            game_state: GameState::DealerTurn,
            pending_computation: None,
            ..*old(game)
        }) && r == Ok::<BlackjackEvent, ErrorCode>(
            if o.is_bust {
                BlackjackEvent::PlayerBust(
                    PlayerBustEvent {
                        client_nonce: o.player_hand.nonce,
                        game_id: old(game).game_id,
                    },
                )
            } else {
                BlackjackEvent::PlayerDoubleDown(
                    PlayerDoubleDownEvent {
                        player_hand: o.player_hand.ciphertext,
                        client_nonce: o.player_hand.nonce,
                        game_id: old(game).game_id,
                    },
                )
            },
        )),
{
    if !pending_matches(&game.pending_computation, computation_offset) {
        return Err(ErrorCode::StaleCallback);
    }
    game.pending_computation = None;
    match output {
        ComputationOutputs::Aborted => Err(ErrorCode::AbortedComputation),
        ComputationOutputs::Success(o) => {
            game.player_hand = o.player_hand.ciphertext;
            game.client_nonce = o.player_hand.nonce;
            game.player_has_stood = true;
            game.game_state = GameState::DealerTurn;
            if o.is_bust {
                Ok(
                    BlackjackEvent::PlayerBust(
                        PlayerBustEvent { client_nonce: o.player_hand.nonce, game_id: game.game_id },
                    ),
                )
            } else {
                Ok(
                    BlackjackEvent::PlayerDoubleDown(
                        PlayerDoubleDownEvent {
                            player_hand: o.player_hand.ciphertext,
                            client_nonce: o.player_hand.nonce,
                            game_id: game.game_id,
                        },
                    ),
                )
            }
        },
    }
}

/// Queue phase of a stand: the same preconditions as a hit. The queued
/// circuit only re-checks the hand for a bust that should be impossible.
pub fn player_stand(game: &mut BlackjackGame, computation_offset: u64) -> (r: Result<
    ComputationRequest,
    ErrorCode,
>)
    ensures
        old(game).game_state != GameState::PlayerTurn ==> r == Err::<
            ComputationRequest,
            ErrorCode,
        >(ErrorCode::InvalidGameState) && *final(game) == *old(game),
        old(game).game_state == GameState::PlayerTurn && old(game).player_has_stood ==> r == Err::<
            ComputationRequest,
            ErrorCode,
        >(ErrorCode::InvalidMove) && *final(game) == *old(game),
        old(game).game_state == GameState::PlayerTurn && !old(game).player_has_stood && old(
            game,
        ).pending_computation is Some ==> r == Err::<ComputationRequest, ErrorCode>(
            ErrorCode::ComputationPending,
        ) && *final(game) == *old(game),
        old(game).game_state == GameState::PlayerTurn && !old(game).player_has_stood && old(
            game,
        ).pending_computation is None ==> ({
            &&& *final(game) == game_with_pending(*old(game), Some(computation_offset))
            &&& r matches Ok(request)
            &&& request.computation_offset == computation_offset
            &&& request.kind == ComputationKind::PlayerStand
            &&& request.args@ == player_stand_args(*old(game))
        }),
{
    if game.game_state != GameState::PlayerTurn {
        return Err(ErrorCode::InvalidGameState);
    }
    if game.player_has_stood {
        return Err(ErrorCode::InvalidMove);
    }
    if game.pending_computation.is_some() {
        return Err(ErrorCode::ComputationPending);
    }
    game.pending_computation = Some(computation_offset);
    let mut args: Vec<Argument> = Vec::new();
    args.push(Argument::EncryptionPubkey(game.player_enc_pubkey));
    args.push(Argument::PlaintextU128(game.client_nonce));
    args.push(
        Argument::AccountRef {
            record: game.game_id,
            byte_offset: PLAYER_HAND_OFFSET,
            byte_len: CIPHERTEXT_LEN,
        },
    );
    args.push(Argument::PlaintextU8(game.player_hand_size));
    proof {
        assert(args@ =~= player_stand_args(*old(game)));
    }
    Ok(ComputationRequest { computation_offset, kind: ComputationKind::PlayerStand, args })
}

/// Callback phase of a stand: flags the player as having stood. Normally
/// the revealed bust flag is false and the turn passes to the dealer. A
/// true flag should be structurally impossible here, since a prior bust
/// ends the turn; the handler treats it defensively, keeping the game in
/// the player's turn and re-emitting a bust event rather than advancing.
pub fn player_stand_callback(
    game: &mut BlackjackGame,
    computation_offset: u64,
    output: ComputationOutputs<bool>,
) -> (r: Result<BlackjackEvent, ErrorCode>)
    ensures
        old(game).pending_computation != Some(computation_offset) ==> r == Err::<
            BlackjackEvent,
            ErrorCode,
        >(ErrorCode::StaleCallback) && *final(game) == *old(game),
        old(game).pending_computation == Some(computation_offset) && output is Aborted ==> r
            == Err::<BlackjackEvent, ErrorCode>(ErrorCode::AbortedComputation) && *final(game)
            == game_with_pending(*old(game), None),
        output matches ComputationOutputs::Success(is_bust) ==> (old(game).pending_computation
            == Some(computation_offset) ==> *final(game) == (BlackjackGame {
            player_has_stood: true,
            game_state: if is_bust {
                GameState::PlayerTurn
            } else {
                GameState::DealerTurn
            },
            pending_computation: None,
            ..*old(game)
        }) && r == Ok::<BlackjackEvent, ErrorCode>(
            if is_bust {
                BlackjackEvent::PlayerBust(
                    PlayerBustEvent {
                        client_nonce: old(game).client_nonce,
                        game_id: old(game).game_id,
                    },
                )
            } else {
                BlackjackEvent::PlayerStand(
                    PlayerStandEvent { is_bust: false, game_id: old(game).game_id },
                )
            },
        )),
{
    if !pending_matches(&game.pending_computation, computation_offset) {
        return Err(ErrorCode::StaleCallback);
    }
    game.pending_computation = None;
    match output {
        ComputationOutputs::Aborted => Err(ErrorCode::AbortedComputation),
        ComputationOutputs::Success(is_bust) => {
            game.player_has_stood = true;
            if is_bust {
                game.game_state = GameState::PlayerTurn;
                Ok(
                    BlackjackEvent::PlayerBust(
                        PlayerBustEvent { client_nonce: game.client_nonce, game_id: game.game_id },
                    ),
                )
            } else {
                game.game_state = GameState::DealerTurn;
                Ok(
                    BlackjackEvent::PlayerStand(
                        PlayerStandEvent { is_bust: false, game_id: game.game_id },
                    ),
                )
            }
        },
    }
}

/// Queue phase of the dealer's turn: only once the game has reached the
/// dealer's turn, and only with no computation outstanding. `nonce` is the
/// fresh nonce for the player-readable copy of the dealer hand.
pub fn dealer_play(game: &mut BlackjackGame, computation_offset: u64, nonce: u128) -> (r: Result<
    ComputationRequest,
    ErrorCode,
>)
    ensures
        old(game).game_state != GameState::DealerTurn ==> r == Err::<
            ComputationRequest,
            ErrorCode,
        >(ErrorCode::InvalidGameState) && *final(game) == *old(game),
        old(game).game_state == GameState::DealerTurn && old(game).pending_computation is Some
            ==> r == Err::<ComputationRequest, ErrorCode>(ErrorCode::ComputationPending) && *final(game) == *old(game),
        old(game).game_state == GameState::DealerTurn && old(game).pending_computation is None
            ==> ({
            &&& *final(game) == game_with_pending(*old(game), Some(computation_offset))
            &&& r matches Ok(request)
            &&& request.computation_offset == computation_offset
            &&& request.kind == ComputationKind::DealerPlay
            &&& request.args@ == dealer_play_args(*old(game), nonce)
        }),
{
    if game.game_state != GameState::DealerTurn {
        return Err(ErrorCode::InvalidGameState);
    }
    if game.pending_computation.is_some() {
        return Err(ErrorCode::ComputationPending);
    }
    game.pending_computation = Some(computation_offset);
    let mut args: Vec<Argument> = Vec::new();
    args.push(Argument::PlaintextU128(game.deck_nonce));
    args.push(
        Argument::AccountRef {
            record: game.game_id,
            byte_offset: DECK_CIPHERTEXT_OFFSET,
            byte_len: DECK_CIPHERTEXT_LEN,
        },
    );
    args.push(Argument::PlaintextU128(game.dealer_nonce));
    args.push(
        Argument::AccountRef {
            record: game.game_id,
            byte_offset: DEALER_HAND_OFFSET,
            byte_len: CIPHERTEXT_LEN,
        },
    );
    args.push(Argument::EncryptionPubkey(game.player_enc_pubkey));
    args.push(Argument::PlaintextU128(nonce));
    args.push(Argument::PlaintextU8(game.player_hand_size));
    args.push(Argument::PlaintextU8(game.dealer_hand_size));
    proof {
        assert(args@ =~= dealer_play_args(*old(game), nonce));
    }
    Ok(ComputationRequest { computation_offset, kind: ComputationKind::DealerPlay, args })
}

/// Callback phase of the dealer's turn: stores the dealer's re-encrypted
/// hand, its fresh nonce and its revealed size, and moves the game to
/// resolution. A success always reveals a size that fits the hand's eleven
/// slots, which the caller must ensure.
pub fn dealer_play_callback(
    game: &mut BlackjackGame,
    computation_offset: u64,
    output: ComputationOutputs<DealerPlayOutput>,
) -> (r: Result<BlackjackEvent, ErrorCode>)
    requires
        output matches ComputationOutputs::Success(o) ==> (old(game).pending_computation == Some(
            computation_offset,
        ) ==> o.dealer_hand_size <= 11),
    ensures
        old(game).pending_computation != Some(computation_offset) ==> r == Err::<
            BlackjackEvent,
            ErrorCode,
        >(ErrorCode::StaleCallback) && *final(game) == *old(game),
        old(game).pending_computation == Some(computation_offset) && output is Aborted ==> r
            == Err::<BlackjackEvent, ErrorCode>(ErrorCode::AbortedComputation) && *final(game)
            == game_with_pending(*old(game), None),
        output matches ComputationOutputs::Success(o) ==> (old(game).pending_computation == Some(
            computation_offset,
        ) ==> *final(game) == (BlackjackGame {
            dealer_hand: o.dealer_hand.ciphertext,
            dealer_nonce: o.dealer_hand.nonce,
            dealer_hand_size: o.dealer_hand_size,
            game_state: GameState::Resolving,
            pending_computation: None,
            ..*old(game)
        }) && r == Ok::<BlackjackEvent, ErrorCode>(
            BlackjackEvent::DealerPlay(
                DealerPlayEvent {
                    dealer_hand: o.dealer_client_hand.ciphertext,
                    dealer_hand_size: o.dealer_hand_size,
                    client_nonce: o.dealer_client_hand.nonce,
                    game_id: old(game).game_id,
                },
            ),
        )),
{
    if !pending_matches(&game.pending_computation, computation_offset) {
        return Err(ErrorCode::StaleCallback);
    }
    game.pending_computation = None;
    match output {
        ComputationOutputs::Aborted => Err(ErrorCode::AbortedComputation),
        ComputationOutputs::Success(o) => {
            game.dealer_hand = o.dealer_hand.ciphertext;
            game.dealer_nonce = o.dealer_hand.nonce;
            game.dealer_hand_size = o.dealer_hand_size;
            game.game_state = GameState::Resolving;
            Ok(
                BlackjackEvent::DealerPlay(
                    DealerPlayEvent {
                        dealer_hand: o.dealer_client_hand.ciphertext,
                        dealer_hand_size: o.dealer_hand_size,
                        client_nonce: o.dealer_client_hand.nonce,
                        game_id: game.game_id,
                    },
                ),
            )
        },
    }
}

/// Queue phase of the resolution: only once the dealer has played, and only
/// with no computation outstanding.
pub fn resolve_game(game: &mut BlackjackGame, computation_offset: u64) -> (r: Result<
    ComputationRequest,
    ErrorCode,
>)
    ensures
        old(game).game_state != GameState::Resolving ==> r == Err::<
            ComputationRequest,
            ErrorCode,
        >(ErrorCode::InvalidGameState) && *final(game) == *old(game),
        old(game).game_state == GameState::Resolving && old(game).pending_computation is Some
            ==> r == Err::<ComputationRequest, ErrorCode>(ErrorCode::ComputationPending) && *final(game) == *old(game),
        old(game).game_state == GameState::Resolving && old(game).pending_computation is None
            ==> ({
            &&& *final(game) == game_with_pending(*old(game), Some(computation_offset))
            &&& r matches Ok(request)
            &&& request.computation_offset == computation_offset
            &&& request.kind == ComputationKind::ResolveGame
            &&& request.args@ == resolve_game_args(*old(game))
        }),
{
    if game.game_state != GameState::Resolving {
        return Err(ErrorCode::InvalidGameState);
    }
    if game.pending_computation.is_some() {
        return Err(ErrorCode::ComputationPending);
    }
    game.pending_computation = Some(computation_offset);
    let mut args: Vec<Argument> = Vec::new();
    args.push(Argument::EncryptionPubkey(game.player_enc_pubkey));
    args.push(Argument::PlaintextU128(game.client_nonce));
    args.push(
        Argument::AccountRef {
            record: game.game_id,
            byte_offset: PLAYER_HAND_OFFSET,
            byte_len: CIPHERTEXT_LEN,
        },
    );
    args.push(Argument::PlaintextU128(game.dealer_nonce));
    args.push(
        Argument::AccountRef {
            record: game.game_id,
            byte_offset: DEALER_HAND_OFFSET,
            byte_len: CIPHERTEXT_LEN,
        },
    );
    args.push(Argument::PlaintextU8(game.player_hand_size));
    args.push(Argument::PlaintextU8(game.dealer_hand_size));
    proof {
        assert(args@ =~= resolve_game_args(*old(game)));
    }
    Ok(ComputationRequest { computation_offset, kind: ComputationKind::ResolveGame, args })
}

/// Callback phase of the resolution: stores the revealed result code, moves
/// the game to its terminal state and names the winner for observers.
pub fn resolve_game_callback(
    game: &mut BlackjackGame,
    computation_offset: u64,
    output: ComputationOutputs<u8>,
) -> (r: Result<BlackjackEvent, ErrorCode>)
    ensures
        old(game).pending_computation != Some(computation_offset) ==> r == Err::<
            BlackjackEvent,
            ErrorCode,
        >(ErrorCode::StaleCallback) && *final(game) == *old(game),
        old(game).pending_computation == Some(computation_offset) && output is Aborted ==> r
            == Err::<BlackjackEvent, ErrorCode>(ErrorCode::AbortedComputation) && *final(game)
            == game_with_pending(*old(game), None),
        output matches ComputationOutputs::Success(result) ==> (old(game).pending_computation
            == Some(computation_offset) ==> *final(game) == (BlackjackGame {
            game_state: GameState::Resolved,
            game_result: result,
            pending_computation: None,
            ..*old(game)
        }) && r == Ok::<BlackjackEvent, ErrorCode>(
            BlackjackEvent::GameResolved(
                ResultEvent { winner: winner_of(result), game_id: old(game).game_id },
            ),
        )),
{
    if !pending_matches(&game.pending_computation, computation_offset) {
        return Err(ErrorCode::StaleCallback);
    }
    game.pending_computation = None;
    match output {
        ComputationOutputs::Aborted => Err(ErrorCode::AbortedComputation),
        ComputationOutputs::Success(result) => {
            game.game_state = GameState::Resolved;
            game.game_result = result;
            let winner = if result == 0 {
                GameWinner::Dealer
            } else if result == 1 {
                GameWinner::Player
            } else if result == 2 {
                GameWinner::Player
            } else if result == 3 {
                GameWinner::Dealer
            } else {
                GameWinner::Tie
            };
            Ok(
                BlackjackEvent::GameResolved(
                    ResultEvent { winner, game_id: game.game_id },
                ),
            )
        },
    }
}

} // verus!
