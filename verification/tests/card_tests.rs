use climate_cards::card::{Card, Deck, Hand};
use climate_cards::emission::Co2Emission;
use climate_cards::finance::Money;

fn card_with_title(title: &str) -> Card {
    Card {
        title: String::from(title),
        help_text: String::new(),
        delta_profit: Money(0),
        delta_co2: Co2Emission(0),
    }
}

#[test]
fn test_can_draw_an_arbitrary_number_of_cards_from_the_deck() {
    let deck = Deck { cards: vec![card_with_title("First")] };

    let hand = deck.draw_cards(1);

    assert_eq!(hand.first().expect("Unable to draw hand").title, "First")
}

#[test]
fn test_drawing_more_cards_then_available_returns_all_remaining_cards() {
    let deck = Deck { cards: vec![Card::default()] };

    let hand = deck.draw_cards(5);

    assert_eq!(1, hand.len())
}

#[test]
fn test_drawing_takes_exactly_the_requested_number_of_cards() {
    let deck = Deck {
        cards: vec![
            card_with_title("a"),
            card_with_title("b"),
            card_with_title("c"),
            card_with_title("d"),
            card_with_title("e"),
        ],
    };

    let hand = deck.draw_cards(3);

    assert_eq!(3, hand.len());
    for card in &hand {
        assert!(deck.cards.iter().any(|deck_card| deck_card.title == card.title));
    }
}

#[test]
fn test_drawing_zero_cards_returns_an_empty_hand() {
    let deck = Deck { cards: vec![card_with_title("only")] };

    let hand = deck.draw_cards(0);

    assert_eq!(0, hand.len())
}

#[test]
fn test_drawing_from_an_empty_deck_returns_an_empty_hand() {
    let deck = Deck::default();

    let hand = deck.draw_cards(3);

    assert_eq!(0, hand.len())
}

#[test]
fn test_a_drawn_hand_holds_every_deck_card_at_most_as_often_as_the_deck() {
    let deck = Deck { cards: vec![card_with_title("dup"), card_with_title("dup")] };

    let hand = deck.draw_cards(2);

    assert_eq!(2, hand.len());
    assert!(hand.iter().all(|card| card.title == "dup"));
}

#[test]
fn test_picking_a_card_inside_the_hand_returns_it() {
    let hand = Hand::new(vec![card_with_title("zero"), card_with_title("one")]);

    let picked = hand.pick_card(1);

    assert_eq!(picked.expect("card must be there").title, "one");
}

#[test]
fn test_picking_a_card_outside_the_hand_returns_nothing() {
    let hand = Hand::new(vec![card_with_title("zero")]);

    assert!(hand.pick_card(1).is_none());
    assert!(Hand::default().pick_card(0).is_none());
}

#[test]
fn test_the_default_card_is_the_empty_fallback() {
    let card = Card::default();

    assert_eq!(card.title, "Nothing");
    assert_eq!(card.help_text, "");
    assert_eq!(card.delta_profit, Money(0));
    assert_eq!(card.delta_co2, Co2Emission(0));
}
