//! The card entity, the deck (the full pool of cards of a playthrough) and
//! the hand (the cards offered to the player for one round).

use vstd::prelude::*;
use vstd::string::StringExecFns;

use rand::seq::SliceRandom;

use crate::emission::Co2Emission;
use crate::finance::Money;

verus! {

/// An immutable card: a display name, an optional flavour text, and the
/// two effects playing it has on the game state.
#[derive(Clone, Debug)]
pub struct Card {
    pub title: String,
    pub help_text: String,
    pub delta_profit: Money,
    pub delta_co2: Co2Emission,
}

impl Default for Card {
    /// The reserved fallback card: named "Nothing", with no effects.
    fn default() -> (r: Self)
        ensures
            r.title@ == "Nothing"@,
            r.help_text@ == Seq::<char>::empty(),
            r.delta_profit.0 == 0,
            r.delta_co2.0 == 0,
    {
        Card {
            title: String::from_str("Nothing"),
            help_text: String::new(),
            delta_profit: Money(0),
            delta_co2: Co2Emission(0),
        }
    }
}

/// The ordered pool of cards available for a playthrough. Drawing is
/// non-destructive: the deck keeps all its cards across draws.
#[derive(Clone, Debug)]
pub struct Deck {
    pub cards: Vec<Card>,
}

impl View for Deck {
    type V = Seq<Card>;

    open spec fn view(&self) -> Seq<Card> {
        self.cards@
    }
}

impl Default for Deck {
    /// A deck with no cards, as left behind by a failed configuration load.
    fn default() -> (r: Self)
        ensures
            r@ == Seq::<Card>::empty(),
    {
        Deck { cards: Vec::new() }
    }
}

/// The cards drawn from the deck for the current round, indexable by
/// position for the player's selection.
#[derive(Clone, Debug)]
pub struct Hand {
    pub cards: Vec<Card>,
}

impl View for Hand {
    type V = Seq<Card>;

    open spec fn view(&self) -> Seq<Card> {
        self.cards@
    }
}

impl Default for Hand {
    /// A hand with no cards in it.
    fn default() -> (r: Self)
        ensures
            r@ == Seq::<Card>::empty(),
    {
        Hand { cards: Vec::new() }
    }
}

impl Hand {
    pub fn new(cards: Vec<Card>) -> (r: Self)
        ensures
            r@ == cards@,
    {
        Hand { cards }
    }

    /// The card at `card_index`, or nothing when the index lies outside
    /// the hand: an invalid selection is signalled, never a crash.
    pub fn pick_card(&self, card_index: usize) -> (picked: Option<&Card>)
        ensures
            card_index < self@.len() ==> (picked matches Some(card) && *card == self@[card_index as int]),
            card_index >= self@.len() ==> picked is None,
    {
        if card_index < self.cards.len() {
            Some(&self.cards[card_index])
        } else {
            None
        }
    }
}

/// Relies on rand's `SliceRandom::shuffle`: it reorders the cards of the
/// copied vector uniformly at random and neither adds, removes nor changes
/// any of them, so the copy holds exactly the cards of the original.
#[verifier::external_body]
fn shuffled_copy(cards: &Vec<Card>) -> (shuffled: Vec<Card>)
    ensures
        shuffled@.len() == cards@.len(),
        shuffled@.to_multiset() == cards@.to_multiset(),
{
    let mut shuffled = cards.clone();
    shuffled.shuffle(&mut rand::rng());
    shuffled
}

impl Deck {
    /// Draws a hand of at most `hand_size` cards: a uniformly shuffled
    /// copy of the deck, cut down to the requested size. The deck itself
    /// is left untouched, and every drawn card comes from the deck — no
    /// card is drawn more often than the deck holds it.
    pub fn draw_cards(&self, hand_size: usize) -> (drawn: Vec<Card>)
        ensures
            drawn@.len() == if hand_size <= self@.len() {
                hand_size as int
            } else {
                self@.len() as int
            },
            drawn@.to_multiset().subset_of(self@.to_multiset()),
            forall|i: int| 0 <= i < drawn@.len() ==> self@.contains(#[trigger] drawn@[i]),
    {
        let mut drawn = shuffled_copy(&self.cards);
        let ghost full = drawn@;
        drawn.truncate(hand_size);
        proof {
            broadcast use vstd::seq_lib::group_to_multiset_ensures;

            if hand_size < full.len() {
                let rest = full.subrange(hand_size as int, full.len() as int);
                assert(full =~= drawn@ + rest);
                vstd::seq_lib::lemma_multiset_commutative(drawn@, rest);
                assert forall|v: Card|
                    drawn@.to_multiset().count(v) <= self@.to_multiset().count(v) by {
                    assert(full.to_multiset().count(v) == drawn@.to_multiset().count(v)
                        + rest.to_multiset().count(v));
                }
            } else {
                assert(drawn@ =~= full);
            }
            assert forall|i: int| 0 <= i < drawn@.len() implies self@.contains(drawn@[i]) by {
                assert(drawn@.contains(drawn@[i]));
                assert(drawn@.to_multiset().count(drawn@[i]) > 0);
                assert(self@.to_multiset().count(drawn@[i]) > 0);
            }
        }
        drawn
    }
}

} // verus!
