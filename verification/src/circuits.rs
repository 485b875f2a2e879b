//! The confidential circuit set. Each circuit runs inside the MPC network on
//! values that are decrypted only there; encryption and decryption are the
//! network's own work, so the functions here are written over the plain
//! values a circuit sees, and their results are what the network re-encrypts
//! or reveals.

use vstd::prelude::*;
use crate::codec::{
    cards_fit, hand_value, Deck, Hand, calculate_hand_value, EMPTY_SLOT, HAND_SLOTS,
};

verus! {

/// Encrypts an initial balance for a new user account, once under the
/// cluster key and once under the client key: both ciphertexts hold the same
/// value, and the value itself is never revealed to the chain.
pub fn initialize_accounts(initial_balance: u64) -> (balances: (u64, u64))
    ensures
        balances.0 == initial_balance,
        balances.1 == initial_balance,
{
    (initial_balance, initial_balance)
}

/// Moves `amount` from the sender's balance to the receiver's when the
/// sender can cover it; otherwise both balances pass through unchanged. The
/// revealed flag says which case held. Both balances are re-encrypted either
/// way, so an observer cannot tell the cases apart from ciphertext freshness.
pub fn process_payment(sender_balance: u64, receiver_balance: u64, amount: u64) -> (r: (
    u64,
    u64,
    bool,
))
    requires
        sender_balance >= amount ==> receiver_balance + amount <= u64::MAX,
    ensures
        r.2 == (sender_balance >= amount),
        sender_balance >= amount ==> r.0 == sender_balance - amount && r.1 == receiver_balance
            + amount,
        sender_balance < amount ==> r.0 == sender_balance && r.1 == receiver_balance,
{
    let is_sufficient = sender_balance >= amount;
    let new_sender_balance = if is_sufficient {
        sender_balance - amount
    } else {
        sender_balance
    };
    let new_receiver_balance = if is_sufficient {
        receiver_balance + amount
    } else {
        receiver_balance
    };
    (new_sender_balance, new_receiver_balance, is_sufficient)
}

/// Reveals whether the balance reaches the threshold, without revealing the
/// balance itself.
pub fn check_balance(balance: u64, threshold: u64) -> (above: bool)
    ensures
        above == (balance >= threshold),
{
    balance >= threshold
}

/// The balance-tier bonus of the reward formula: 100 from 10000 up, 50 from
/// 5000, 25 from 1000, otherwise nothing.
pub open spec fn tier_bonus(balance: u64) -> int {
    if balance >= 10000 {
        100
    } else if balance >= 5000 {
        50
    } else if balance >= 1000 {
        25
    } else {
        0
    }
}

/// Reveals the reward earned: ten points per transaction plus the balance
/// tier bonus. Only the total leaves the computation; the balance does not.
pub fn calculate_rewards(transaction_count: u64, balance: u64) -> (reward: u64)
    requires
        transaction_count * 10 + 100 <= u64::MAX,
    ensures
        reward == transaction_count * 10 + tier_bonus(balance),
{
    let base_rewards = transaction_count * 10;
    let balance_bonus: u64 = if balance >= 10000 {
        100
    } else if balance >= 5000 {
        50
    } else if balance >= 1000 {
        25
    } else {
        0
    };
    base_rewards + balance_bonus
}

/// An 11-slot hand holding `first` and `second` and nothing else.
pub open spec fn two_card_hand(first: u8, second: u8) -> Seq<u8> {
    seq![first, second].add(Seq::new(9, |i: int| EMPTY_SLOT))
}

/// Builds the 11-slot card array of a freshly dealt two-card hand.
fn deal_two_cards(first: u8, second: u8) -> (cards: Vec<u8>)
    requires
        first < 64,
        second < 64,
    ensures
        cards@ == two_card_hand(first, second),
{
    let mut cards: Vec<u8> = Vec::new();
    cards.push(first);
    cards.push(second);
    while cards.len() < HAND_SLOTS
        invariant
            2 <= cards@.len() <= 11,
            cards@[0] == first,
            cards@[1] == second,
            forall|i: int| 2 <= i < cards@.len() ==> cards@[i] == EMPTY_SLOT,
        decreases 11 - cards@.len(),
    {
        cards.push(EMPTY_SLOT);
    }
    proof {
        assert(cards@ =~= two_card_hand(first, second));
    }
    cards
}

/// What shuffle-and-deal hands back to the chain: the packed deck owned by
/// the cluster, the dealer's and player's two-card hands, and the dealer's
/// face-up card re-encrypted for the player.
pub struct DealtCards {
    pub deck: Deck,
    pub dealer_hand: Hand,
    pub player_hand: Hand,
    pub dealer_up_card: u8,
}

/// Packs a freshly shuffled deck and deals the opening hands from its top:
/// the player takes cards 0 and 2, the dealer cards 1 and 3, and card 1 is
/// also revealed to the player as the dealer's up card. The shuffled order
/// itself is produced inside the secure computation, so this circuit takes
/// it as given.
pub fn shuffle_and_deal_cards(shuffled: &Vec<u8>) -> (dealt: DealtCards)
    requires
        shuffled@.len() == 52,
        cards_fit(shuffled@),
    ensures
        dealt.deck@ == shuffled@,
        dealt.player_hand@ == two_card_hand(shuffled@[0], shuffled@[2]),
        dealt.dealer_hand@ == two_card_hand(shuffled@[1], shuffled@[3]),
        dealt.dealer_up_card == shuffled@[1],
{
    let deck = Deck::from_array(shuffled);
    let dealer_cards = deal_two_cards(shuffled[1], shuffled[3]);
    let player_cards = deal_two_cards(shuffled[0], shuffled[2]);
    DealtCards {
        deck,
        dealer_hand: Hand::from_array(&dealer_cards),
        player_hand: Hand::from_array(&player_cards),
        dealer_up_card: shuffled[1],
    }
}

/// The card a hit writes into the next slot, and the bust flag it reveals:
/// bust is decided on the hand value before drawing, and a busted hand
/// receives the empty-slot sentinel instead of consuming a card.
pub open spec fn hit_is_bust(hand: Seq<u8>, occupied: int) -> bool {
    hand_value(hand.take(occupied)) > 21
}

/// Draws the next card from the deck into the player's hand, unless the
/// hand is already over 21; then the slot is filled with the sentinel and no
/// card is consumed. Reveals only the bust flag.
pub fn player_hit(deck: &Deck, player_hand: &Hand, player_hand_size: u8, dealer_hand_size: u8) -> (r:
    (Hand, bool))
    requires
        player_hand_size < 11,
        player_hand_size + dealer_hand_size < 52,
    ensures
        r.1 == hit_is_bust(player_hand@, player_hand_size as int),
        r.0@ == player_hand@.update(
            player_hand_size as int,
            if r.1 {
                EMPTY_SLOT
            } else {
                deck@[player_hand_size + dealer_hand_size]
            },
        ),
{
    proof {
        deck.lemma_view_fits();
        player_hand.lemma_view_fits();
    }
    let deck_cards = deck.to_array();
    let mut hand_cards = player_hand.to_array();
    proof {
        assert(hand_cards@.take(player_hand_size as int) =~= player_hand@.take(
            player_hand_size as int,
        ));
    }
    let value = calculate_hand_value(&hand_cards, player_hand_size);
    let is_bust = value > 21;
    let new_card = if !is_bust {
        deck_cards[(player_hand_size + dealer_hand_size) as usize]
    } else {
        EMPTY_SLOT
    };
    hand_cards.set(player_hand_size as usize, new_card);
    (Hand::from_array(&hand_cards), is_bust)
}

/// Reveals whether the player's hand is already over 21. On the normal game
/// path a busted hand has ended the turn before a stand can be queued, so a
/// true result signals an invariant violation to the chain.
pub fn player_stand(player_hand: &Hand, player_hand_size: u8) -> (is_bust: bool)
    requires
        player_hand_size <= 11,
    ensures
        is_bust == (hand_value(player_hand@.take(player_hand_size as int)) > 21),
{
    proof {
        player_hand.lemma_view_fits();
    }
    let hand_cards = player_hand.to_array();
    proof {
        assert(hand_cards@.take(player_hand_size as int) =~= player_hand@.take(
            player_hand_size as int,
        ));
    }
    let value = calculate_hand_value(&hand_cards, player_hand_size);
    value > 21
}

/// The double-down draw: card for card the same as [`player_hit`]; the chain
/// additionally marks the player as having stood when it lands.
pub fn player_double_down(
    deck: &Deck,
    player_hand: &Hand,
    player_hand_size: u8,
    dealer_hand_size: u8,
) -> (r: (Hand, bool))
    requires
        player_hand_size < 11,
        player_hand_size + dealer_hand_size < 52,
    ensures
        r.1 == hit_is_bust(player_hand@, player_hand_size as int),
        r.0@ == player_hand@.update(
            player_hand_size as int,
            if r.1 {
                EMPTY_SLOT
            } else {
                deck@[player_hand_size + dealer_hand_size]
            },
        ),
{
    proof {
        deck.lemma_view_fits();
        player_hand.lemma_view_fits();
    }
    let deck_cards = deck.to_array();
    let mut hand_cards = player_hand.to_array();
    proof {
        assert(hand_cards@.take(player_hand_size as int) =~= player_hand@.take(
            player_hand_size as int,
        ));
    }
    let value = calculate_hand_value(&hand_cards, player_hand_size);
    let is_bust = value > 21;
    let new_card = if !is_bust {
        deck_cards[(player_hand_size + dealer_hand_size) as usize]
    } else {
        EMPTY_SLOT
    };
    hand_cards.set(player_hand_size as usize, new_card);
    (Hand::from_array(&hand_cards), is_bust)
}

/// One bounded pass of the dealer's drawing rule: over `fuel` rounds, a
/// round draws the next deck card into the hand while the hand value is
/// below 17 and otherwise leaves everything as it is. Returns the hand and
/// its occupied count after the rounds.
pub open spec fn dealer_round(deck: Seq<u8>, hand: Seq<u8>, player_hand_size: nat, size: nat, fuel: nat) -> (
    Seq<u8>,
    nat,
)
    decreases fuel,
{
    if fuel == 0 {
        (hand, size)
    } else if hand_value(hand.take(size as int)) < 17 {
        dealer_round(
            deck,
            hand.update(size as int, deck[(player_hand_size + size) as int]),
            player_hand_size,
            size + 1,
            (fuel - 1) as nat,
        )
    } else {
        dealer_round(deck, hand, player_hand_size, size, (fuel - 1) as nat)
    }
}

/// The dealer stop rule: once the hand value has reached 17, no round draws
/// and the hand leaves the play unchanged, whatever fuel remains.
pub proof fn lemma_dealer_stands_at_seventeen(
    deck: Seq<u8>,
    hand: Seq<u8>,
    player_hand_size: nat,
    size: nat,
    fuel: nat,
)
    requires
        hand_value(hand.take(size as int)) >= 17,
    ensures
        dealer_round(deck, hand, player_hand_size, size, fuel) == (hand, size),
    decreases fuel,
{
    if fuel > 0 {
        lemma_dealer_stands_at_seventeen(deck, hand, player_hand_size, size, (fuel - 1) as nat);
    }
}

/// The dealer draws at most one card per round, so the final hand size is
/// bounded by the fuel, and drawing never changes the number of slots.
pub proof fn lemma_dealer_round_bounds(
    deck: Seq<u8>,
    hand: Seq<u8>,
    player_hand_size: nat,
    size: nat,
    fuel: nat,
)
    requires
        size + fuel <= hand.len(),
    ensures
        size <= dealer_round(deck, hand, player_hand_size, size, fuel).1 <= size + fuel,
        dealer_round(deck, hand, player_hand_size, size, fuel).0.len() == hand.len(),
    decreases fuel,
{
    if fuel > 0 {
        if hand_value(hand.take(size as int)) < 17 {
            lemma_dealer_round_bounds(
                deck,
                hand.update(size as int, deck[(player_hand_size + size) as int]),
                player_hand_size,
                size + 1,
                (fuel - 1) as nat,
            );
        } else {
            lemma_dealer_round_bounds(deck, hand, player_hand_size, size, (fuel - 1) as nat);
        }
    }
}

/// The stop rule is complete as well: the dealer keeps drawing until the
/// hand value reaches 17, so a play that ends below 17 drew on every round.
pub proof fn lemma_dealer_stops_only_at_seventeen_or_bound(
    deck: Seq<u8>,
    hand: Seq<u8>,
    player_hand_size: nat,
    size: nat,
    fuel: nat,
)
    ensures
        ({
            let outcome = dealer_round(deck, hand, player_hand_size, size, fuel);
            hand_value(outcome.0.take(outcome.1 as int)) >= 17 || outcome.1 == size + fuel
        }),
    decreases fuel,
{
    if fuel > 0 {
        if hand_value(hand.take(size as int)) < 17 {
            lemma_dealer_stops_only_at_seventeen_or_bound(
                deck,
                hand.update(size as int, deck[(player_hand_size + size) as int]),
                player_hand_size,
                size + 1,
                (fuel - 1) as nat,
            );
        } else {
            lemma_dealer_stands_at_seventeen(deck, hand, player_hand_size, size, (fuel - 1) as nat);
        }
    }
}

/// Plays the dealer's turn: up to seven rounds of the drawing rule, each
/// drawing `deck[player_hand_size + size]` while the hand value is below 17.
/// Reveals the final hand size; the hand itself stays encrypted. A hand that
/// already stands at 17 comes back untouched.
pub fn dealer_play(deck: &Deck, dealer_hand: &Hand, player_hand_size: u8, dealer_hand_size: u8) -> (r:
    (Hand, u8))
    requires
        dealer_hand_size <= 4,
        player_hand_size + dealer_hand_size + 7 <= 52,
    ensures
        (r.0@, r.1 as nat) == dealer_round(
            deck@,
            dealer_hand@,
            player_hand_size as nat,
            dealer_hand_size as nat,
            7,
        ),
        dealer_hand_size <= r.1 <= dealer_hand_size + 7,
        hand_value(dealer_hand@.take(dealer_hand_size as int)) >= 17 ==> r.0@ == dealer_hand@
            && r.1 == dealer_hand_size,
{
    proof {
        deck.lemma_view_fits();
        dealer_hand.lemma_view_fits();
        lemma_dealer_round_bounds(
            deck@,
            dealer_hand@,
            player_hand_size as nat,
            dealer_hand_size as nat,
            7,
        );
        if hand_value(dealer_hand@.take(dealer_hand_size as int)) >= 17 {
            lemma_dealer_stands_at_seventeen(
                deck@,
                dealer_hand@,
                player_hand_size as nat,
                dealer_hand_size as nat,
                7,
            );
        }
    }
    let deck_cards = deck.to_array();
    let mut hand = dealer_hand.to_array();
    let mut size: u8 = dealer_hand_size;
    let mut i: u8 = 0;
    while i < 7
        invariant
            i <= 7,
            dealer_hand_size <= size,
            size <= dealer_hand_size + i,
            dealer_hand_size <= 4,
            player_hand_size + dealer_hand_size + 7 <= 52,
            deck_cards@ == deck@,
            deck@.len() == 52,
            cards_fit(deck@),
            hand@.len() == 11,
            cards_fit(hand@),
            dealer_round(
                deck@,
                dealer_hand@,
                player_hand_size as nat,
                dealer_hand_size as nat,
                7,
            ) == dealer_round(deck@, hand@, player_hand_size as nat, size as nat, (7 - i) as nat),
        decreases 7 - i,
    {
        let ghost hand_before = hand@;
        let ghost size_before = size as nat;
        let value = calculate_hand_value(&hand, size);
        if value < 17 {
            let idx = player_hand_size + size;
            hand.set(size as usize, deck_cards[idx as usize]);
            size = size + 1;
        }
        i = i + 1;
        proof {
            if value < 17 {
                assert(hand@ == hand_before.update(
                    size_before as int,
                    deck@[(player_hand_size as nat + size_before) as int],
                ));
            }
        }
    }
    (Hand::from_array(&hand), size)
}

/// The revealed game result: player bust loses first, then dealer bust wins
/// for the player, then the higher value wins, equal values push. The codes
/// are 0 dealer wins by player bust, 1 player wins by dealer bust, 2 player
/// wins on value, 3 dealer wins on value, 4 push.
pub open spec fn resolve_result(player_value: int, dealer_value: int) -> u8 {
    if player_value > 21 {
        0
    } else if dealer_value > 21 {
        1
    } else if player_value > dealer_value {
        2
    } else if dealer_value > player_value {
        3
    } else {
        4
    }
}

/// Compares the final hands and reveals the result code, bust checks taking
/// precedence over the value comparison.
pub fn resolve_game(
    player_hand: &Hand,
    dealer_hand: &Hand,
    player_hand_length: u8,
    dealer_hand_length: u8,
) -> (result: u8)
    requires
        player_hand_length <= 11,
        dealer_hand_length <= 11,
    ensures
        result == resolve_result(
            hand_value(player_hand@.take(player_hand_length as int)),
            hand_value(dealer_hand@.take(dealer_hand_length as int)),
        ),
{
    proof {
        player_hand.lemma_view_fits();
        dealer_hand.lemma_view_fits();
    }
    let player_cards = player_hand.to_array();
    let dealer_cards = dealer_hand.to_array();
    let player_value = calculate_hand_value(&player_cards, player_hand_length);
    let dealer_value = calculate_hand_value(&dealer_cards, dealer_hand_length);
    if player_value > 21 {
        0
    } else if dealer_value > 21 {
        1
    } else if player_value > dealer_value {
        2
    } else if dealer_value > player_value {
        3
    } else {
        4
    }
}

} // verus!
