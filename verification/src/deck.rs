//! The deck: the 52 standard cards in a mutable order, with randomized
//! shuffling and sequential dealing from the top (the end of the sequence).

use vstd::prelude::*;
use crate::card::{Card, Rank, Suit};

verus! {

/// Suit laid down for block `k` of thirteen consecutive cards of a fresh deck.
pub open spec fn spec_suit_at(k: int) -> Suit {
    if k == 0 {
        Suit::Clubs
    } else if k == 1 {
        Suit::Diamonds
    } else if k == 2 {
        Suit::Hearts
    } else {
        Suit::Spades
    }
}

/// Rank laid down at offset `k` within a thirteen-card suit block.
pub open spec fn spec_rank_at(k: int) -> Rank {
    if k == 0 {
        Rank::Two
    } else if k == 1 {
        Rank::Three
    } else if k == 2 {
        Rank::Four
    } else if k == 3 {
        Rank::Five
    } else if k == 4 {
        Rank::Six
    } else if k == 5 {
        Rank::Seven
    } else if k == 6 {
        Rank::Eight
    } else if k == 7 {
        Rank::Nine
    } else if k == 8 {
        Rank::Ten
    } else if k == 9 {
        Rank::Jack
    } else if k == 10 {
        Rank::Queen
    } else if k == 11 {
        Rank::King
    } else {
        Rank::Ace
    }
}

/// Card at position `k` of a freshly constructed deck: thirteen ranks within
/// each of four suit blocks, in the fixed canonical order.
pub open spec fn spec_card_at(k: int) -> Card {
    Card { rank: spec_rank_at(k % 13), suit: spec_suit_at(k / 13) }
}

/// Position a card occupies in a freshly constructed deck.
pub open spec fn spec_position_of(c: Card) -> int {
    13 * suit_position(c.suit) + rank_position(c.rank)
}

/// Index of a suit's thirteen-card block in a fresh deck.
pub open spec fn suit_position(s: Suit) -> int {
    match s {
        Suit::Clubs => 0,
        Suit::Diamonds => 1,
        Suit::Hearts => 2,
        Suit::Spades => 3,
    }
}

/// Offset of a rank within a suit block of a fresh deck.
pub open spec fn rank_position(r: Rank) -> int {
    match r {
        Rank::Two => 0,
        Rank::Three => 1,
        Rank::Four => 2,
        Rank::Five => 3,
        Rank::Six => 4,
        Rank::Seven => 5,
        Rank::Eight => 6,
        Rank::Nine => 7,
        Rank::Ten => 8,
        Rank::Jack => 9,
        Rank::Queen => 10,
        Rank::King => 11,
        Rank::Ace => 12,
    }
}

/// Deck contents after `k` cards have been dealt from a deck that held `s`.
pub open spec fn spec_deck_after_deals(s: Seq<Card>, k: int) -> Seq<Card> {
    s.take(s.len() - k)
}

/// The card returned by the `k`-th deal (counting from 0) from a deck that
/// held `s`.
pub open spec fn spec_dealt_card(s: Seq<Card>, k: int) -> Card {
    s[s.len() - 1 - k]
}

/// Dealing walks the deck down from its end, one card per call: after `k`
/// deals the deck holds its first `len - k` cards and the next deal removes
/// the last of them, which is the `k`-th dealt card. Once as many deals have
/// happened as the deck held cards, it is empty, so the following deal
/// signals absence by `deal_card`'s contract.
pub proof fn lemma_deal_progression(s: Seq<Card>, k: int)
    requires
        0 <= k < s.len(),
    ensures
        spec_deck_after_deals(s, k).len() == s.len() - k,
        spec_deck_after_deals(s, k).last() == spec_dealt_card(s, k),
        spec_deck_after_deals(s, k).drop_last() == spec_deck_after_deals(s, k + 1),
        spec_deck_after_deals(s, s.len() as int).len() == 0,
{
    assert(spec_deck_after_deals(s, k).drop_last() =~= spec_deck_after_deals(s, k + 1));
}

/// No card is dealt twice from a duplicate-free deck: two different deals
/// return two different cards.
pub proof fn lemma_deals_are_distinct(s: Seq<Card>, j: int, k: int)
    requires
        s.no_duplicates(),
        0 <= j < k < s.len(),
    ensures
        spec_dealt_card(s, j) != spec_dealt_card(s, k),
{
}

/// A card of a fresh deck sits exactly at the position assigned to it.
proof fn lemma_card_at_roundtrip(k: int)
    requires
        0 <= k < 52,
    ensures
        spec_position_of(spec_card_at(k)) == k,
        0 <= k / 13 < 4,
        0 <= k % 13 < 13,
{
    vstd::arithmetic::div_mod::lemma_fundamental_div_mod(k, 13);
    vstd::arithmetic::div_mod::lemma_mod_division_less_than_divisor(k, 13);
}

/// An ordered collection of cards. Created with the 52 standard cards,
/// progressively drained by dealing from the end.
pub struct Deck {
    pub cards: Vec<Card>,
}

impl View for Deck {
    type V = Seq<Card>;

    open spec fn view(&self) -> Seq<Card> {
        self.cards@
    }
}

/// Relies on `rand::random_range` on the thread-local generator: for the
/// non-empty range `0..bound` it returns a value of that range. Nothing more
/// is assumed of the draw; any returned index below the bound is acceptable.
#[verifier::external_body]
fn random_below(bound: usize) -> (r: usize)
    requires
        bound > 0,
    ensures
        r < bound,
{
    rand::random_range(0..bound)
}

impl Deck {
    /// Exec mirror of `spec_suit_at` for the suit block `k`.
    fn suit_at(k: usize) -> (s: Suit)
        ensures
            s == spec_suit_at(k as int),
    {
        if k == 0 {
            Suit::Clubs
        } else if k == 1 {
            Suit::Diamonds
        } else if k == 2 {
            Suit::Hearts
        } else {
            Suit::Spades
        }
    }

    /// Exec mirror of `spec_rank_at` for the offset `k` within a suit block.
    fn rank_at(k: usize) -> (r: Rank)
        ensures
            r == spec_rank_at(k as int),
    {
        if k == 0 {
            Rank::Two
        } else if k == 1 {
            Rank::Three
        } else if k == 2 {
            Rank::Four
        } else if k == 3 {
            Rank::Five
        } else if k == 4 {
            Rank::Six
        } else if k == 5 {
            Rank::Seven
        } else if k == 6 {
            Rank::Eight
        } else if k == 7 {
            Rank::Nine
        } else if k == 8 {
            Rank::Ten
        } else if k == 9 {
            Rank::Jack
        } else if k == 10 {
            Rank::Queen
        } else if k == 11 {
            Rank::King
        } else {
            Rank::Ace
        }
    }

    /// Builds the 52 standard cards, one of each rank and suit combination,
    /// in the fixed canonical order: no duplicates, every card present.
    pub fn new() -> (d: Deck)
        ensures
            d@.len() == 52,
            forall|k: int| 0 <= k < 52 ==> d@[k] == spec_card_at(k),
            d@.no_duplicates(),
            forall|c: Card| d@.contains(c),
    {
        let mut cards: Vec<Card> = Vec::new();
        let mut s: usize = 0;
        while s < 4
            invariant
                s <= 4,
                cards@.len() == 13 * s,
                forall|k: int| 0 <= k < cards@.len() ==> cards@[k] == spec_card_at(k),
            decreases 4 - s,
        {
            let mut r: usize = 0;
            while r < 13
                invariant
                    s < 4,
                    r <= 13,
                    cards@.len() == 13 * s + r,
                    forall|k: int| 0 <= k < cards@.len() ==> cards@[k] == spec_card_at(k),
                decreases 13 - r,
            {
                let c = Card { rank: Self::rank_at(r), suit: Self::suit_at(s) };
                proof {
                    vstd::arithmetic::div_mod::lemma_fundamental_div_mod_converse(
                        13 * s + r,
                        13,
                        s as int,
                        r as int,
                    );
                    assert(spec_card_at(13 * s + r) == c);
                }
                cards.push(c);
                r = r + 1;
            }
            s = s + 1;
        }
        let d = Deck { cards };
        proof {
            assert forall|i: int, j: int| 0 <= i < j < d@.len() implies d@[i] != d@[j] by {
                lemma_card_at_roundtrip(i);
                lemma_card_at_roundtrip(j);
                assert(d@[i] == spec_card_at(i) && d@[j] == spec_card_at(j));
            }
            assert forall|c: Card| d@.contains(c) by {
                let k = spec_position_of(c);
                vstd::arithmetic::div_mod::lemma_fundamental_div_mod_converse(
                    k,
                    13,
                    suit_position(c.suit),
                    rank_position(c.rank),
                );
                assert(spec_card_at(k) == c);
                assert(d@[k] == c);
            }
        }
        d
    }

    /// Permutes the deck in place. The randomness only picks which
    /// permutation arises; whatever it yields, the cards themselves are
    /// unchanged as a multiset.
    pub fn shuffle(&mut self)
        ensures
            final(self)@.to_multiset() == old(self)@.to_multiset(),
            final(self)@.len() == old(self)@.len(),
    {
        let n = self.cards.len();
        for i in 0..n
            invariant
                self.cards@.len() == n,
                self.cards@.to_multiset() == old(self).cards@.to_multiset(),
        {
            let j = i + random_below(n - i);
            let a = self.cards[i];
            let b = self.cards[j];
            let ghost s0 = self.cards@;
            self.cards[i] = b;
            let ghost s1 = self.cards@;
            self.cards[j] = a;
            proof {
                broadcast use vstd::multiset::group_multiset_axioms;
                broadcast use vstd::multiset::group_multiset_properties;
                broadcast use vstd::seq_lib::group_to_multiset_ensures;

                assert(s0.contains(a) && s0.contains(b));
                assert(s0.to_multiset().count(a) > 0 && s0.to_multiset().count(b) > 0);
                assert(s1 == s0.update(i as int, b));
                vstd::seq_lib::to_multiset_update(s0, i as int, b);
                assert(s1.to_multiset() == s0.to_multiset().insert(b).remove(a));
                assert(s1[j as int] == b);
                assert(self.cards@ == s1.update(j as int, a));
                vstd::seq_lib::to_multiset_update(s1, j as int, a);
                assert(self.cards@.to_multiset() == s1.to_multiset().insert(a).remove(b));
                assert(self.cards@.to_multiset() =~= s0.to_multiset());
            }
        }
    }

    /// Removes and returns the card at the top of the deck (the end of the
    /// sequence); signals absence, rather than failing, once the deck is
    /// empty.
    pub fn deal_card(&mut self) -> (r: Option<Card>)
        ensures
            old(self)@.len() == 0 ==> r is None && final(self)@ == old(self)@,
            old(self)@.len() > 0 ==> r == Some(old(self)@.last()) && final(self)@ == old(
                self,
            )@.drop_last(),
    {
        self.cards.pop()
    }
}

} // verus!
