//! Plays a full round against the real circuits: the test stands in for the
//! MPC network, running each queued circuit on the plaintext values and
//! delivering its revealed outputs to the matching callback.

use blackjack::blackjack::{
    dealer_play, dealer_play_callback, initialize_blackjack_game, player_hit, player_hit_callback,
    player_stand, player_stand_callback, resolve_game, resolve_game_callback,
    shuffle_and_deal_cards_callback, BlackjackEvent, DealerPlayOutput, GameState, GameWinner,
    PlayerHitOutput, ShuffleAndDealCardsOutput,
};
use blackjack::circuits;
use blackjack::codec::calculate_hand_value;
use blackjack::protocol::{CipherPayload, ComputationOutputs, DeckCipherPayload};

const PLAYER: [u8; 32] = [3u8; 32];
const PLAYER_ENC: [u8; 32] = [5u8; 32];

fn cipher(nonce: u128) -> CipherPayload {
    CipherPayload { encryption_key: PLAYER_ENC, nonce, ciphertext: [0u8; 32] }
}

#[test]
fn full_round_player_wins_by_dealer_bust() {
    // The network's secret state: the shuffled deck and the dealt hands.
    let shuffled: Vec<u8> = (0u8..52).collect();
    let dealt = circuits::shuffle_and_deal_cards(&shuffled);

    let (mut game, request) = initialize_blackjack_game(7, PLAYER, PLAYER_ENC, 11, 22, 100);
    assert_eq!(request.computation_offset, 100);
    shuffle_and_deal_cards_callback(
        &mut game,
        100,
        ComputationOutputs::Success(ShuffleAndDealCardsOutput {
            deck: DeckCipherPayload { nonce: 1, ciphertexts: [[0u8; 32]; 3] },
            dealer_hand: cipher(2),
            player_hand: cipher(3),
            dealer_up_card: cipher(4),
        }),
    )
    .unwrap();
    assert_eq!(game.game_state, GameState::PlayerTurn);

    // Player hand is cards 0 and 2: ace + two, worth 13. The player hits and
    // draws card 4, reaching 17.
    let request = player_hit(&mut game, 101).unwrap();
    let (player_hand, is_bust) = circuits::player_hit(
        &dealt.deck,
        &dealt.player_hand,
        game.player_hand_size,
        game.dealer_hand_size,
    );
    assert!(!is_bust);
    player_hit_callback(
        &mut game,
        request.computation_offset,
        ComputationOutputs::Success(PlayerHitOutput { player_hand: cipher(5), is_bust }),
    )
    .unwrap();
    assert_eq!(game.player_hand_size, 3);
    assert_eq!(calculate_hand_value(&player_hand.to_array(), 3), 17);

    // The player stands on 17.
    let request = player_stand(&mut game, 102).unwrap();
    let is_bust = circuits::player_stand(&player_hand, game.player_hand_size);
    assert!(!is_bust);
    player_stand_callback(&mut game, request.computation_offset, ComputationOutputs::Success(is_bust))
        .unwrap();
    assert_eq!(game.game_state, GameState::DealerTurn);

    // Dealer hand is cards 1 and 3, worth 4: it draws 5, 6 and 7 and busts
    // at 22.
    let request = dealer_play(&mut game, 103, 33).unwrap();
    let (dealer_hand, dealer_size) = circuits::dealer_play(
        &dealt.deck,
        &dealt.dealer_hand,
        game.player_hand_size,
        game.dealer_hand_size,
    );
    assert_eq!(dealer_size, 5);
    dealer_play_callback(
        &mut game,
        request.computation_offset,
        ComputationOutputs::Success(DealerPlayOutput {
            dealer_hand: cipher(6),
            dealer_client_hand: cipher(7),
            dealer_hand_size: dealer_size,
        }),
    )
    .unwrap();
    assert_eq!(game.game_state, GameState::Resolving);
    assert_eq!(game.dealer_hand_size, 5);
    assert_eq!(calculate_hand_value(&dealer_hand.to_array(), dealer_size), 22);

    // Resolution: the dealer busted, so the player wins with code 1.
    let request = resolve_game(&mut game, 104).unwrap();
    let result = circuits::resolve_game(
        &player_hand,
        &dealer_hand,
        game.player_hand_size,
        game.dealer_hand_size,
    );
    assert_eq!(result, 1);
    let event = resolve_game_callback(
        &mut game,
        request.computation_offset,
        ComputationOutputs::Success(result),
    )
    .unwrap();
    assert_eq!(game.game_state, GameState::Resolved);
    assert_eq!(game.game_result, 1);
    match event {
        BlackjackEvent::GameResolved(e) => assert_eq!(e.winner, GameWinner::Player),
        other => panic!("wrong event: {:?}", other),
    }
}
