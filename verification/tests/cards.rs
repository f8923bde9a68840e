use twenty_one::card::{Card, Rank, Suit};
use twenty_one::deck::Deck;
use twenty_one::hand::Hand;
use twenty_one::theme::{ButtonStyle, ContainerStyle, TwentyOneTheme};

fn all_ranks() -> Vec<Rank> {
    vec![
        Rank::Two,
        Rank::Three,
        Rank::Four,
        Rank::Five,
        Rank::Six,
        Rank::Seven,
        Rank::Eight,
        Rank::Nine,
        Rank::Ten,
        Rank::Jack,
        Rank::Queen,
        Rank::King,
        Rank::Ace,
    ]
}

fn all_suits() -> Vec<Suit> {
    vec![Suit::Clubs, Suit::Diamonds, Suit::Hearts, Suit::Spades]
}

fn hand_of(cards: Vec<Card>) -> Hand {
    Hand { cards }
}

#[test]
fn fresh_deck_is_the_standard_52() {
    let deck = Deck::new();
    assert_eq!(deck.cards.len(), 52);
    for suit in all_suits() {
        for rank in all_ranks() {
            let copies = deck
                .cards
                .iter()
                .filter(|c| c.rank == rank && c.suit == suit)
                .count();
            assert_eq!(copies, 1, "expected exactly one {:?} of {:?}", rank, suit);
        }
    }
}

#[test]
fn shuffle_is_a_permutation() {
    let mut deck = Deck::new();
    deck.shuffle();
    assert_eq!(deck.cards.len(), 52);
    let mut shuffled: Vec<String> = deck.cards.iter().map(|c| c.get_id()).collect();
    let mut fresh: Vec<String> = Deck::new().cards.iter().map(|c| c.get_id()).collect();
    shuffled.sort();
    fresh.sort();
    assert_eq!(shuffled, fresh);
}

#[test]
fn dealing_exhausts_after_52_distinct_cards() {
    let mut deck = Deck::new();
    deck.shuffle();
    let mut dealt: Vec<Card> = Vec::new();
    for _ in 0..52 {
        let card = deck.deal_card().expect("a fresh deck holds 52 cards");
        dealt.push(card);
    }
    for i in 0..dealt.len() {
        for j in (i + 1)..dealt.len() {
            assert_ne!(dealt[i], dealt[j], "card dealt twice");
        }
    }
    assert_eq!(deck.deal_card(), None, "the 53rd deal must signal absence");
    assert_eq!(deck.deal_card(), None, "an empty deck stays empty");
}

#[test]
fn card_values_follow_blackjack_points() {
    assert_eq!(Card { rank: Rank::Two, suit: Suit::Clubs }.value(), 2);
    assert_eq!(Card { rank: Rank::Nine, suit: Suit::Hearts }.value(), 9);
    assert_eq!(Card { rank: Rank::Ten, suit: Suit::Spades }.value(), 10);
    assert_eq!(Card { rank: Rank::Jack, suit: Suit::Diamonds }.value(), 10);
    assert_eq!(Card { rank: Rank::Queen, suit: Suit::Clubs }.value(), 10);
    assert_eq!(Card { rank: Rank::King, suit: Suit::Hearts }.value(), 10);
    assert_eq!(Card { rank: Rank::Ace, suit: Suit::Spades }.value(), 11);
}

#[test]
fn card_identifiers_are_stable() {
    let ace = Card { rank: Rank::Ace, suit: Suit::Spades };
    assert_eq!(ace.get_id(), "ace_of_spades");
    let ten = Card { rank: Rank::Ten, suit: Suit::Hearts };
    assert_eq!(ten.get_id(), "10_of_hearts");
    let two = Card { rank: Rank::Two, suit: Suit::Clubs };
    assert_eq!(two.get_id(), "2_of_clubs");
    let queen = Card { rank: Rank::Queen, suit: Suit::Diamonds };
    assert_eq!(queen.get_id(), "queen_of_diamonds");
    // Same card again: the identifier is a pure function of rank and suit.
    assert_eq!(ace.get_id(), "ace_of_spades");
}

#[test]
fn ace_and_king_score_twenty_one() {
    let hand = hand_of(vec![
        Card { rank: Rank::Ace, suit: Suit::Spades },
        Card { rank: Rank::King, suit: Suit::Hearts },
    ]);
    assert_eq!(hand.value(), 21);
}

#[test]
fn one_of_two_aces_softens() {
    let hand = hand_of(vec![
        Card { rank: Rank::Ace, suit: Suit::Spades },
        Card { rank: Rank::Ace, suit: Suit::Hearts },
        Card { rank: Rank::Nine, suit: Suit::Clubs },
    ]);
    assert_eq!(hand.value(), 21);
}

#[test]
fn three_of_four_aces_soften() {
    let hand = hand_of(vec![
        Card { rank: Rank::Ace, suit: Suit::Spades },
        Card { rank: Rank::Ace, suit: Suit::Hearts },
        Card { rank: Rank::Ace, suit: Suit::Clubs },
        Card { rank: Rank::Ace, suit: Suit::Diamonds },
        Card { rank: Rank::Seven, suit: Suit::Clubs },
    ]);
    assert_eq!(hand.value(), 21);
}

#[test]
fn bust_without_aces_stays_bust() {
    let hand = hand_of(vec![
        Card { rank: Rank::King, suit: Suit::Spades },
        Card { rank: Rank::Queen, suit: Suit::Hearts },
        Card { rank: Rank::Two, suit: Suit::Clubs },
    ]);
    assert_eq!(hand.value(), 22);
}

#[test]
fn value_is_stable_on_an_unmutated_hand() {
    let hand = hand_of(vec![
        Card { rank: Rank::Ace, suit: Suit::Spades },
        Card { rank: Rank::Ace, suit: Suit::Hearts },
        Card { rank: Rank::Nine, suit: Suit::Clubs },
    ]);
    let first = hand.value();
    let second = hand.value();
    let third = hand.value();
    assert_eq!(first, second);
    assert_eq!(second, third);
}

#[test]
fn push_and_pop_mirror_each_other() {
    let mut hand = Hand::new();
    assert_eq!(hand.pop(), None);
    let five = Card { rank: Rank::Five, suit: Suit::Clubs };
    let jack = Card { rank: Rank::Jack, suit: Suit::Hearts };
    hand.push(five);
    hand.push(jack);
    assert_eq!(hand.value(), 15);
    assert_eq!(hand.pop(), Some(jack));
    assert_eq!(hand.value(), 5);
    assert_eq!(hand.pop(), Some(five));
    assert_eq!(hand.pop(), None);
}

#[test]
fn style_tags_default_to_the_table() {
    assert_eq!(TwentyOneTheme::default(), TwentyOneTheme::Burgundy);
    assert!(matches!(ButtonStyle::default(), ButtonStyle::Table));
    assert!(matches!(ContainerStyle::default(), ContainerStyle::Table));
}
