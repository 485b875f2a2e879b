//! Card codec: packs ordered card sequences into fixed-width integers using
//! base-64 positional encoding (6 bits per card, values 0..63), and computes
//! the blackjack value of a hand.
//!
//! A full 52-card deck is split over three 128-bit chunks of 21, 21 and 10
//! cards; a hand is a single 128-bit chunk of 11 slots, unused slots holding
//! the sentinel value 53 (not a valid card rank).

use vstd::prelude::*;
use vstd::arithmetic::div_mod::lemma_fundamental_div_mod_converse;

verus! {

/// Number of slots in a hand.
pub const HAND_SLOTS: usize = 11;
/// Sentinel stored in unoccupied hand slots; not a valid card rank.
pub const EMPTY_SLOT: u8 = 53;

/// 64 raised to the power `n`: the weight of the card in slot `n`.
pub open spec fn pow64(n: nat) -> int
    decreases n,
{
    if n == 0 {
        1
    } else {
        64 * pow64((n - 1) as nat)
    }
}

/// The base-64 positional encoding of `cards`: slot `i` is the digit of
/// weight `64^i`, so the first card is the least significant digit.
pub open spec fn pack_cards(cards: Seq<u8>) -> int
    decreases cards.len(),
{
    if cards.len() == 0 {
        0
    } else {
        cards[0] + 64 * pack_cards(cards.drop_first())
    }
}

/// The `n` base-64 digits of `value`, least significant first.
pub open spec fn unpack_cards(value: int, n: nat) -> Seq<u8>
    decreases n,
{
    if n == 0 {
        Seq::empty()
    } else {
        seq![(value % 64) as u8] + unpack_cards(value / 64, (n - 1) as nat)
    }
}

/// Every card in `cards` fits in a 6-bit slot.
pub open spec fn cards_fit(cards: Seq<u8>) -> bool {
    forall|i: int| 0 <= i < cards.len() ==> cards[i] < 64
}

proof fn lemma_pow64_pos(n: nat)
    ensures
        pow64(n) >= 1,
    decreases n,
{
    if n > 0 {
        lemma_pow64_pos((n - 1) as nat);
    }
}

proof fn lemma_pow64_increases(m: nat, n: nat)
    requires
        m <= n,
    ensures
        pow64(m) <= pow64(n),
    decreases n,
{
    if m < n {
        lemma_pow64_increases(m, (n - 1) as nat);
        lemma_pow64_pos((n - 1) as nat);
    }
}

/// The largest chunk packs 21 cards, which still fits a 128-bit integer.
proof fn lemma_pow64_21_fits()
    ensures
        pow64(21) == 0x40000000000000000000000000000000,
{
    reveal_with_fuel(pow64, 22);
}

/// A packed sequence of 6-bit cards is bounded by the weight of the slot
/// just past its end.
pub proof fn lemma_pack_cards_bound(cards: Seq<u8>)
    requires
        cards_fit(cards),
    ensures
        0 <= pack_cards(cards) < pow64(cards.len()),
    decreases cards.len(),
{
    if cards.len() > 0 {
        assert(cards_fit(cards.drop_first()));
        lemma_pack_cards_bound(cards.drop_first());
    }
}

/// Unpacking yields exactly `n` cards, each fitting its 6-bit slot.
pub proof fn lemma_unpack_cards_fit(value: int, n: nat)
    requires
        value >= 0,
    ensures
        unpack_cards(value, n).len() == n,
        cards_fit(unpack_cards(value, n)),
    decreases n,
{
    if n > 0 {
        lemma_fundamental_div_mod_converse(value, 64, value / 64, value % 64);
        lemma_unpack_cards_fit(value / 64, (n - 1) as nat);
    }
}

/// The codec round-trip law: unpacking a packed sequence of 6-bit cards
/// yields the sequence back, whatever its length. Instantiated at length 52
/// it covers the deck (chunk by chunk), at length 11 the hand.
pub proof fn lemma_unpack_pack_cards(cards: Seq<u8>)
    requires
        cards_fit(cards),
    ensures
        unpack_cards(pack_cards(cards), cards.len()) == cards,
    decreases cards.len(),
{
    if cards.len() > 0 {
        let rest = cards.drop_first();
        assert(cards_fit(rest));
        lemma_pack_cards_bound(rest);
        let v = pack_cards(cards);
        lemma_fundamental_div_mod_converse(v, 64, pack_cards(rest), cards[0] as int);
        lemma_unpack_pack_cards(rest);
        assert(unpack_cards(v, cards.len()) =~= cards);
    }
}

/// The other direction of the round trip: packing the `n` digits of a value
/// below `64^n` gives the value back. Together with [`lemma_unpack_pack_cards`]
/// this makes the encoding a bijection between card sequences of 6-bit
/// values and integers below the weight of the slot past their end.
pub proof fn lemma_pack_unpack_cards(value: int, n: nat)
    requires
        0 <= value < pow64(n),
    ensures
        pack_cards(unpack_cards(value, n)) == value,
    decreases n,
{
    if n == 0 {
        assert(pow64(n) == 1);
    } else {
        let q = value / 64;
        let r = value % 64;
        vstd::arithmetic::div_mod::lemma_fundamental_div_mod(value, 64);
        assert(q < pow64((n - 1) as nat)) by {
            if q >= pow64((n - 1) as nat) {
                assert(64 * q >= 64 * pow64((n - 1) as nat)) by (nonlinear_arith)
                    requires
                        q >= pow64((n - 1) as nat),
                ;
            }
        }
        lemma_pack_unpack_cards(q, (n - 1) as nat);
        assert(unpack_cards(value, n).drop_first() =~= unpack_cards(q, (n - 1) as nat));
        assert(unpack_cards(value, n)[0] == r as u8);
    }
}

/// Packs `cards[start..end]` into one base-64 chunk, first card least
/// significant, as the deck and hand encoders do.
fn pack_chunk(cards: &Vec<u8>, start: usize, end: usize) -> (packed: u128)
    requires
        start <= end <= cards@.len(),
        end - start <= 21,
        cards_fit(cards@),
    ensures
        packed == pack_cards(cards@.subrange(start as int, end as int)),
{
    proof {
        lemma_pow64_21_fits();
    }
    let mut packed: u128 = 0;
    let mut i: usize = end;
    while i > start
        invariant
            start <= i <= end <= cards@.len(),
            end - start <= 21,
            cards_fit(cards@),
            packed == pack_cards(cards@.subrange(i as int, end as int)),
            packed < pow64((end - i) as nat),
            pow64(21) == 0x40000000000000000000000000000000,
        decreases i,
    {
        i = i - 1;
        proof {
            lemma_pow64_increases((end - i - 1) as nat, 20);
            assert(cards@.subrange(i as int, end as int).drop_first() =~= cards@.subrange(
                i as int + 1,
                end as int,
            ));
        }
        packed = packed * 64 + (cards[i] as u128);
    }
    packed
}

/// Unpacks `n` base-64 digits of `value`, least significant first.
fn unpack_chunk(value: u128, n: usize) -> (cards: Vec<u8>)
    ensures
        cards@ == unpack_cards(value as int, n as nat),
    decreases n,
{
    let mut cards: Vec<u8> = Vec::new();
    let mut rest = value;
    let mut j: usize = 0;
    while j < n
        invariant
            j <= n,
            cards@.len() == j,
            cards@ + unpack_cards(rest as int, (n - j) as nat) == unpack_cards(
                value as int,
                n as nat,
            ),
        decreases n - j,
    {
        let ghost before = cards@;
        let ghost rest_before = rest as int;
        cards.push((rest % 64) as u8);
        rest = rest / 64;
        j = j + 1;
        proof {
            assert(unpack_cards(rest_before, (n - j + 1) as nat) == seq![
                (rest_before % 64) as u8,
            ] + unpack_cards(rest_before / 64, (n - j) as nat));
            assert(cards@ + unpack_cards(rest as int, (n - j) as nat) =~= before + unpack_cards(
                rest_before,
                (n - j + 1) as nat,
            ));
        }
    }
    proof {
        assert(cards@ =~= cards@ + unpack_cards(rest as int, 0));
    }
    cards
}

/// A full 52-card deck packed into three 128-bit chunks: cards 0..21 in
/// `card_one`, 21..42 in `card_two`, 42..52 in `card_three`.
#[derive(Clone, Copy)]
pub struct Deck {
    pub card_one: u128,
    pub card_two: u128,
    pub card_three: u128,
}

impl View for Deck {
    type V = Seq<u8>;

    open spec fn view(&self) -> Seq<u8> {
        unpack_cards(self.card_one as int, 21) + unpack_cards(self.card_two as int, 21)
            + unpack_cards(self.card_three as int, 10)
    }
}

impl Deck {
    /// A deck's view always holds 52 cards, each fitting its 6-bit slot.
    pub proof fn lemma_view_fits(self)
        ensures
            self@.len() == 52,
            cards_fit(self@),
    {
        lemma_unpack_cards_fit(self.card_one as int, 21);
        lemma_unpack_cards_fit(self.card_two as int, 21);
        lemma_unpack_cards_fit(self.card_three as int, 10);
    }

    /// Packs a 52-card sequence into the three-chunk representation.
    pub fn from_array(cards: &Vec<u8>) -> (deck: Deck)
        requires
            cards@.len() == 52,
            cards_fit(cards@),
        ensures
            deck@ == cards@,
    {
        let deck = Deck {
            card_one: pack_chunk(cards, 0, 21),
            card_two: pack_chunk(cards, 21, 42),
            card_three: pack_chunk(cards, 42, 52),
        };
        proof {
            let one = cards@.subrange(0, 21);
            let two = cards@.subrange(21, 42);
            let three = cards@.subrange(42, 52);
            assert(cards_fit(one) && cards_fit(two) && cards_fit(three));
            lemma_unpack_pack_cards(one);
            lemma_unpack_pack_cards(two);
            lemma_unpack_pack_cards(three);
            assert(deck@ =~= cards@);
        }
        deck
    }

    /// Recovers the 52-card sequence from the packed representation.
    pub fn to_array(&self) -> (cards: Vec<u8>)
        ensures
            cards@ == self@,
    {
        let mut cards = unpack_chunk(self.card_one, 21);
        let mut two = unpack_chunk(self.card_two, 21);
        let mut three = unpack_chunk(self.card_three, 10);
        cards.append(&mut two);
        cards.append(&mut three);
        cards
    }
}

/// A hand of up to 11 cards packed into one 128-bit chunk; unoccupied slots
/// hold [`EMPTY_SLOT`].
#[derive(Clone, Copy)]
pub struct Hand {
    pub cards: u128,
}

impl View for Hand {
    type V = Seq<u8>;

    open spec fn view(&self) -> Seq<u8> {
        unpack_cards(self.cards as int, 11)
    }
}

impl Hand {
    /// A hand's view always holds 11 slots, each fitting 6 bits.
    pub proof fn lemma_view_fits(self)
        ensures
            self@.len() == 11,
            cards_fit(self@),
    {
        lemma_unpack_cards_fit(self.cards as int, 11);
    }

    /// Packs an 11-slot card sequence into one 128-bit integer.
    pub fn from_array(cards: &Vec<u8>) -> (hand: Hand)
        requires
            cards@.len() == 11,
            cards_fit(cards@),
        ensures
            hand@ == cards@,
    {
        let hand = Hand { cards: pack_chunk(cards, 0, 11) };
        proof {
            lemma_unpack_pack_cards(cards@);
            assert(cards@.subrange(0, 11) =~= cards@);
        }
        hand
    }

    /// Recovers the 11-slot card sequence from the packed representation.
    pub fn to_array(&self) -> (cards: Vec<u8>)
        ensures
            cards@ == self@,
    {
        unpack_chunk(self.cards, 11)
    }
}

/// Blackjack points of one card before any ace adjustment: an ace (rank 0)
/// counts 11, ranks 1..=10 count their rank, face ranks 11 and 12 count 10.
pub open spec fn card_points(card: u8) -> int {
    let rank = (card % 13) as int;
    if rank == 0 {
        11
    } else if rank > 10 {
        10
    } else {
        rank
    }
}

/// Sum of the card points of a hand, every ace counted as 11.
pub open spec fn raw_points(cards: Seq<u8>) -> int
    decreases cards.len(),
{
    if cards.len() == 0 {
        0
    } else {
        card_points(cards[0]) + raw_points(cards.drop_first())
    }
}

/// Whether the hand holds at least one ace.
pub open spec fn has_ace(cards: Seq<u8>) -> bool {
    exists|i: int| 0 <= i < cards.len() && #[trigger] (cards[i] % 13) == 0
}

/// The blackjack value of a hand: the raw point sum, with one ace demoted
/// from 11 to 1 when the sum exceeds 21. The demotion is applied at most
/// once, so a hand with several aces can stay above 21.
pub open spec fn hand_value(cards: Seq<u8>) -> int {
    if raw_points(cards) > 21 && has_ace(cards) {
        raw_points(cards) - 10
    } else {
        raw_points(cards)
    }
}

proof fn lemma_raw_points_push(cards: Seq<u8>, card: u8)
    ensures
        raw_points(cards.push(card)) == raw_points(cards) + card_points(card),
    decreases cards.len(),
{
    assert(cards.push(card)[0] == if cards.len() == 0 {
        card
    } else {
        cards[0]
    });
    assert(raw_points(cards.push(card)) == card_points(cards.push(card)[0]) + raw_points(
        cards.push(card).drop_first(),
    ));
    if cards.len() == 0 {
        assert(cards.push(card).drop_first() =~= Seq::empty());
    } else {
        assert(cards.push(card).drop_first() =~= cards.drop_first().push(card));
        lemma_raw_points_push(cards.drop_first(), card);
    }
}

proof fn lemma_raw_points_bound(cards: Seq<u8>)
    ensures
        0 <= raw_points(cards) <= 11 * cards.len(),
    decreases cards.len(),
{
    if cards.len() > 0 {
        lemma_raw_points_bound(cards.drop_first());
    }
}

/// Computes the blackjack value of the first `occupied` slots of `hand`.
/// The occupied count is tracked outside the packed representation, so it is
/// passed alongside the cards.
pub fn calculate_hand_value(hand: &Vec<u8>, occupied: u8) -> (value: u8)
    requires
        occupied <= 11,
        occupied as int <= hand@.len(),
    ensures
        value == hand_value(hand@.take(occupied as int)),
{
    let ghost full = hand@.take(occupied as int);
    let mut value: u8 = 0;
    let mut ace = false;
    let mut i: usize = 0;
    while i < occupied as usize
        invariant
            i <= occupied <= 11,
            occupied as int <= hand@.len(),
            value == raw_points(hand@.take(i as int)),
            value <= 11 * i,
            ace == has_ace(hand@.take(i as int)),
        decreases occupied as int - i,
    {
        proof {
            assert(hand@.take(i as int + 1) =~= hand@.take(i as int).push(hand@[i as int]));
            lemma_raw_points_push(hand@.take(i as int), hand@[i as int]);
            lemma_raw_points_bound(hand@.take(i as int));
        }
        let rank = hand[i] % 13;
        if rank == 0 {
            value = value + 11;
            ace = true;
        } else if rank > 10 {
            value = value + 10;
        } else {
            value = value + rank;
        }
        proof {
            if has_ace(hand@.take(i as int + 1)) && !has_ace(hand@.take(i as int)) && rank != 0 {
                let w = choose|j: int|
                    0 <= j < i + 1 && #[trigger] (hand@.take(i as int + 1)[j] % 13) == 0;
                assert(hand@.take(i as int)[w] % 13 == 0);
            }
            if rank == 0 {
                assert(hand@.take(i as int + 1)[i as int] % 13 == 0);
            }
        }
        i = i + 1;
    }
    proof {
        assert(hand@.take(occupied as int) =~= full);
    }
    if value > 21 && ace {
        value = value - 10;
    }
    value
}

} // verus!
