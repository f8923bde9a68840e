//! The playing-card value type: a rank and a suit, with the blackjack point
//! value of the card alone and a stable textual identifier for presentation.

use vstd::prelude::*;
use vstd::string::StringExecFns;

verus! {

/// One of the four French suits.
#[derive(Clone, Copy, PartialEq, Eq, Structural, Debug)]
pub enum Suit {
    Clubs,
    Diamonds,
    Hearts,
    Spades,
}

/// One of the thirteen ranks. An ace is worth 11 on its own; demoting it to 1
/// is a hand-level concern, not a card-level one.
#[derive(Clone, Copy, PartialEq, Eq, Structural, Debug)]
pub enum Rank {
    Two,
    Three,
    Four,
    Five,
    Six,
    Seven,
    Eight,
    Nine,
    Ten,
    Jack,
    Queen,
    King,
    Ace,
}

/// An immutable card value identifying rank and suit.
#[derive(Clone, Copy, PartialEq, Eq, Structural, Debug)]
pub struct Card {
    pub rank: Rank,
    pub suit: Suit,
}

impl Rank {
    /// Point value of the rank with an ace counted high (11).
    pub open spec fn spec_value(self) -> int {
        match self {
            Rank::Two => 2,
            Rank::Three => 3,
            Rank::Four => 4,
            Rank::Five => 5,
            Rank::Six => 6,
            Rank::Seven => 7,
            Rank::Eight => 8,
            Rank::Nine => 9,
            Rank::Ten => 10,
            Rank::Jack => 10,
            Rank::Queen => 10,
            Rank::King => 10,
            Rank::Ace => 11,
        }
    }

    /// Textual name of the rank, as used in a card's identifier.
    pub open spec fn spec_id(self) -> Seq<char> {
        match self {
            Rank::Two => "2"@,
            Rank::Three => "3"@,
            Rank::Four => "4"@,
            Rank::Five => "5"@,
            Rank::Six => "6"@,
            Rank::Seven => "7"@,
            Rank::Eight => "8"@,
            Rank::Nine => "9"@,
            Rank::Ten => "10"@,
            Rank::Jack => "jack"@,
            Rank::Queen => "queen"@,
            Rank::King => "king"@,
            Rank::Ace => "ace"@,
        }
    }

    /// Textual name of the rank.
    pub fn id(&self) -> (r: &'static str)
        ensures
            r@ == self.spec_id(),
    {
        match self {
            Rank::Two => "2",
            Rank::Three => "3",
            Rank::Four => "4",
            Rank::Five => "5",
            Rank::Six => "6",
            Rank::Seven => "7",
            Rank::Eight => "8",
            Rank::Nine => "9",
            Rank::Ten => "10",
            Rank::Jack => "jack",
            Rank::Queen => "queen",
            Rank::King => "king",
            Rank::Ace => "ace",
        }
    }
}

impl Suit {
    /// Textual name of the suit, as used in a card's identifier.
    pub open spec fn spec_id(self) -> Seq<char> {
        match self {
            Suit::Clubs => "clubs"@,
            Suit::Diamonds => "diamonds"@,
            Suit::Hearts => "hearts"@,
            Suit::Spades => "spades"@,
        }
    }

    /// Textual name of the suit.
    pub fn id(&self) -> (r: &'static str)
        ensures
            r@ == self.spec_id(),
    {
        match self {
            Suit::Clubs => "clubs",
            Suit::Diamonds => "diamonds",
            Suit::Hearts => "hearts",
            Suit::Spades => "spades",
        }
    }
}

impl Card {
    /// Point value of the card with an ace counted high.
    pub open spec fn spec_value(self) -> int {
        self.rank.spec_value()
    }

    /// Stable identifier of the card: rank name, "_of_", suit name.
    pub open spec fn spec_id(self) -> Seq<char> {
        self.rank.spec_id() + "_of_"@ + self.suit.spec_id()
    }

    /// Blackjack point value of this card taken alone; an ace counts as 11
    /// here, softening to 1 is decided by the hand holding the card.
    pub fn value(&self) -> (v: u32)
        ensures
            v == self.spec_value(),
            2 <= v <= 11,
    {
        match self.rank {
            Rank::Two => 2,
            Rank::Three => 3,
            Rank::Four => 4,
            Rank::Five => 5,
            Rank::Six => 6,
            Rank::Seven => 7,
            Rank::Eight => 8,
            Rank::Nine => 9,
            Rank::Ten => 10,
            Rank::Jack => 10,
            Rank::Queen => 10,
            Rank::King => 10,
            Rank::Ace => 11,
        }
    }

    /// Stable textual identifier of the card, a pure function of rank and
    /// suit, meant for external presentation lookup (e.g. asset naming).
    pub fn get_id(&self) -> (r: String)
        ensures
            r@ == self.spec_id(),
    {
        let s = String::from_str(self.rank.id());
        let s = s.concat("_of_");
        let r = s.concat(self.suit.id());
        proof {
            assert(r@ =~= self.spec_id());
        }
        r
    }
}

} // verus!
