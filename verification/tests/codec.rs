use blackjack::codec::{calculate_hand_value, Deck, Hand};

fn identity_deck() -> Vec<u8> {
    (0u8..52).collect()
}

fn hand_cards(cards: &[u8]) -> Vec<u8> {
    let mut v = cards.to_vec();
    while v.len() < 11 {
        v.push(53);
    }
    v
}

#[test]
fn deck_round_trip_identity_permutation() {
    let cards = identity_deck();
    let deck = Deck::from_array(&cards);
    assert_eq!(deck.to_array(), cards);
}

#[test]
fn deck_round_trip_reversed_permutation() {
    let cards: Vec<u8> = (0u8..52).rev().collect();
    let deck = Deck::from_array(&cards);
    assert_eq!(deck.to_array(), cards);
}

#[test]
fn deck_round_trip_interleaved_permutation() {
    // Even ranks first, then odd ranks: still 52 distinct ranks below 52.
    let mut cards: Vec<u8> = (0u8..52).filter(|c| c % 2 == 0).collect();
    cards.extend((0u8..52).filter(|c| c % 2 == 1));
    assert_eq!(cards.len(), 52);
    let deck = Deck::from_array(&cards);
    assert_eq!(deck.to_array(), cards);
}

#[test]
fn deck_round_trip_largest_slot_values() {
    // The codec packs any 6-bit values, not only valid ranks.
    let cards: Vec<u8> = (0..52).map(|i| if i % 2 == 0 { 63 } else { 0 }).collect();
    let deck = Deck::from_array(&cards);
    assert_eq!(deck.to_array(), cards);
}

#[test]
fn deck_chunks_use_base_64_positional_encoding() {
    // Card i carries weight 64^i inside its chunk.
    let mut cards = vec![0u8; 52];
    cards[0] = 3;
    cards[1] = 2;
    cards[21] = 7;
    cards[42] = 9;
    let deck = Deck::from_array(&cards);
    assert_eq!(deck.card_one, 3 + 2 * 64);
    assert_eq!(deck.card_two, 7);
    assert_eq!(deck.card_three, 9);
}

#[test]
fn hand_round_trip_with_sentinels() {
    let cards = hand_cards(&[0, 12]);
    let hand = Hand::from_array(&cards);
    assert_eq!(hand.to_array(), cards);
}

#[test]
fn hand_round_trip_full_eleven_cards() {
    let cards = vec![0u8, 13, 26, 39, 52, 1, 2, 3, 4, 5, 6];
    let hand = Hand::from_array(&cards);
    assert_eq!(hand.to_array(), cards);
}

#[test]
fn hand_packs_low_slots_first() {
    let cards = hand_cards(&[5, 10]);
    let hand = Hand::from_array(&cards);
    let sentinel_tail: u128 = (2..11).map(|i| 53u128 * 64u128.pow(i)).sum();
    assert_eq!(hand.cards, 5 + 10 * 64 + sentinel_tail);
}

#[test]
fn hand_value_blackjack_is_twenty_one() {
    // Ace and king: the ace counts eleven.
    assert_eq!(calculate_hand_value(&vec![0, 12], 2), 21);
}

#[test]
fn hand_value_two_aces_and_a_ten_reduces_once() {
    // 11 + 11 + 9 busts, and exactly one ace is demoted to 1.
    assert_eq!(calculate_hand_value(&vec![0, 0, 9], 3), 21);
}

#[test]
fn hand_value_bust_without_ace_is_not_reduced() {
    assert_eq!(calculate_hand_value(&vec![9, 9, 9], 3), 27);
}

#[test]
fn hand_value_empty_hand_is_zero() {
    assert_eq!(calculate_hand_value(&vec![53; 11], 0), 0);
}

#[test]
fn hand_value_ignores_unoccupied_slots() {
    // Slots past the occupied count never contribute, whatever they hold.
    let cards = hand_cards(&[9, 8]);
    assert_eq!(calculate_hand_value(&cards, 2), 17);
}

#[test]
fn hand_value_counts_rank_not_card() {
    // Cards 13 and 26 are aces of other suits; 25 has rank 12, a face card.
    assert_eq!(calculate_hand_value(&vec![13, 25], 2), 21);
    assert_eq!(calculate_hand_value(&vec![26], 1), 11);
}

#[test]
fn hand_value_soft_ace_stays_eleven_under_twenty_one() {
    // Ace + 5: 11 + 5 = 16, no demotion needed.
    assert_eq!(calculate_hand_value(&vec![0, 5], 2), 16);
}
